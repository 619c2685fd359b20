//! The entries operation's answer: headwords, their lexical entries, and the
//! tree of senses below them. Every type says which JSON documents hold a
//! value of it, under the member names the service uses.

use crate::json::{lemma_member_below, Json};
use crate::models::decode::{
    optional, optional_is, optional_ok, required, required_is, required_ok, Decode,
    DeserializationError,
};
use vstd::prelude::*;

verus! {

/// The answer to an entries lookup.
#[derive(Debug)]
pub struct RetrieveEntry {
    /// Whatever the service says about the answer itself, as it wrote it.
    pub metadata: Option<Json>,
    /// The headwords found.
    pub results: Option<Vec<HeadwordEntry>>,
}

impl RetrieveEntry {
    /// Whether `document` has the shape of an answer.
    pub open spec fn decodable(document: Json) -> bool {
        &&& document is Object
        &&& optional_ok::<Vec<HeadwordEntry>>(document, "results"@)
    }

    /// Whether `value` is the answer that `document` holds.
    pub open spec fn decodes(document: Json, value: RetrieveEntry) -> bool {
        &&& value.metadata == document.present("metadata"@)
        &&& optional_is::<Vec<HeadwordEntry>>(document, "results"@, value.results)
    }

    /// Every headword of the answer has at least one lexical entry.
    pub open spec fn well_formed(&self) -> bool {
        self.results matches Some(results) ==> forall|i: int|
            0 <= i < results.len() ==> (#[trigger] results[i]).well_formed()
    }

    /// Reads an answer out of a document, which is used up: the metadata is
    /// moved out of it.
    pub fn from_json(document: Json) -> (read: Result<RetrieveEntry, DeserializationError>)
        ensures
            read is Ok <==> Self::decodable(document),
            read matches Ok(value) ==> Self::decodes(document, value) && value.well_formed(),
    {
        if !document.is_object() {
            return Err(DeserializationError);
        }
        let results = optional::<Vec<HeadwordEntry>>(&document, "results")?;
        proof {
            if results is Some {
                let headwords = results->0;
                let items = document.present("results"@)->0->Array_0;
                assert forall|i: int| 0 <= i < headwords.len() implies #[trigger] headwords[i]
                    .well_formed() by {
                    lemma_headword_has_lexical_entries(items[i], headwords[i]);
                }
            }
        }
        let metadata = document.take_present("metadata");
        Ok(RetrieveEntry { metadata, results })
    }
}

/// A headword: the dictionary form of a word, with its lexical entries.
///
/// `lexical_entries` is never empty.
#[derive(Debug)]
pub struct HeadwordEntry {
    pub id: String,
    pub language: String,
    pub lexical_entries: Vec<LexicalEntry>,
    pub pronunciations: Option<Vec<Pronunciation>>,
    pub type_: Option<String>,
    /// The headword once more, where the service still sends it.
    pub word: Option<String>,
}

impl Decode for HeadwordEntry {
    open spec fn decodable(document: Json) -> bool {
        &&& document is Object
        &&& required_ok::<String>(document, "id"@)
        &&& required_ok::<String>(document, "language"@)
        &&& required_ok::<Vec<LexicalEntry>>(document, "lexicalEntries"@)
        &&& optional_ok::<Vec<Pronunciation>>(document, "pronunciations"@)
        &&& optional_ok::<String>(document, "type"@)
        &&& optional_ok::<String>(document, "word"@)
        &&& document.member("lexicalEntries"@) matches Some(Json::Array(entries))
            && entries.len() > 0
    }

    open spec fn decodes(document: Json, value: Self) -> bool {
        &&& required_is::<String>(document, "id"@, value.id)
        &&& required_is::<String>(document, "language"@, value.language)
        &&& required_is::<Vec<LexicalEntry>>(document, "lexicalEntries"@, value.lexical_entries)
        &&& optional_is::<Vec<Pronunciation>>(document, "pronunciations"@, value.pronunciations)
        &&& optional_is::<String>(document, "type"@, value.type_)
        &&& optional_is::<String>(document, "word"@, value.word)
    }

    fn decode(document: &Json) -> (read: Result<Self, DeserializationError>) {
        if !document.is_object() {
            return Err(DeserializationError);
        }
        let id = required::<String>(document, "id")?;
        let language = required::<String>(document, "language")?;
        let lexical_entries = required::<Vec<LexicalEntry>>(document, "lexicalEntries")?;
        let pronunciations = optional::<Vec<Pronunciation>>(document, "pronunciations")?;
        let type_ = optional::<String>(document, "type")?;
        let word = optional::<String>(document, "word")?;
        if lexical_entries.len() == 0 {
            return Err(DeserializationError);
        }
        Ok(HeadwordEntry { id, language, lexical_entries, pronunciations, type_, word })
    }
}

impl HeadwordEntry {
    /// A headword has at least one lexical entry.
    pub open spec fn well_formed(&self) -> bool {
        self.lexical_entries.len() > 0
    }
}

/// The entries of a headword that share a lexical category.
#[derive(Debug)]
pub struct LexicalEntry {
    pub compounds: Option<Vec<RelatedEntry>>,
    pub derivative_of: Option<Vec<RelatedEntry>>,
    pub derivatives: Option<Vec<RelatedEntry>>,
    pub entries: Option<Vec<Entry>>,
    pub grammatical_features: Option<Vec<GrammaticalFeature>>,
    pub language: String,
    pub lexical_category: LexicalCategory,
    pub notes: Option<Vec<CategorizedText>>,
    pub phrasal_verbs: Option<Vec<RelatedEntry>>,
    pub phrases: Option<Vec<RelatedEntry>>,
    pub pronunciations: Option<Vec<Pronunciation>>,
    pub root: Option<String>,
    pub text: String,
    pub variant_forms: Option<Vec<VariantForm>>,
}

impl Decode for LexicalEntry {
    open spec fn decodable(document: Json) -> bool {
        &&& document is Object
        &&& optional_ok::<Vec<RelatedEntry>>(document, "compounds"@)
        &&& optional_ok::<Vec<RelatedEntry>>(document, "derivativeOf"@)
        &&& optional_ok::<Vec<RelatedEntry>>(document, "derivatives"@)
        &&& optional_ok::<Vec<Entry>>(document, "entries"@)
        &&& optional_ok::<Vec<GrammaticalFeature>>(document, "grammaticalFeatures"@)
        &&& required_ok::<String>(document, "language"@)
        &&& required_ok::<LexicalCategory>(document, "lexicalCategory"@)
        &&& optional_ok::<Vec<CategorizedText>>(document, "notes"@)
        &&& optional_ok::<Vec<RelatedEntry>>(document, "phrasalVerbs"@)
        &&& optional_ok::<Vec<RelatedEntry>>(document, "phrases"@)
        &&& optional_ok::<Vec<Pronunciation>>(document, "pronunciations"@)
        &&& optional_ok::<String>(document, "root"@)
        &&& required_ok::<String>(document, "text"@)
        &&& optional_ok::<Vec<VariantForm>>(document, "variantForms"@)
    }

    open spec fn decodes(document: Json, value: Self) -> bool {
        &&& optional_is::<Vec<RelatedEntry>>(document, "compounds"@, value.compounds)
        &&& optional_is::<Vec<RelatedEntry>>(document, "derivativeOf"@, value.derivative_of)
        &&& optional_is::<Vec<RelatedEntry>>(document, "derivatives"@, value.derivatives)
        &&& optional_is::<Vec<Entry>>(document, "entries"@, value.entries)
        &&& optional_is::<Vec<GrammaticalFeature>>(
            document,
            "grammaticalFeatures"@,
            value.grammatical_features,
        )
        &&& required_is::<String>(document, "language"@, value.language)
        &&& required_is::<LexicalCategory>(document, "lexicalCategory"@, value.lexical_category)
        &&& optional_is::<Vec<CategorizedText>>(document, "notes"@, value.notes)
        &&& optional_is::<Vec<RelatedEntry>>(document, "phrasalVerbs"@, value.phrasal_verbs)
        &&& optional_is::<Vec<RelatedEntry>>(document, "phrases"@, value.phrases)
        &&& optional_is::<Vec<Pronunciation>>(document, "pronunciations"@, value.pronunciations)
        &&& optional_is::<String>(document, "root"@, value.root)
        &&& required_is::<String>(document, "text"@, value.text)
        &&& optional_is::<Vec<VariantForm>>(document, "variantForms"@, value.variant_forms)
    }

    fn decode(document: &Json) -> (read: Result<Self, DeserializationError>) {
        if !document.is_object() {
            return Err(DeserializationError);
        }
        let compounds = optional::<Vec<RelatedEntry>>(document, "compounds")?;
        let derivative_of = optional::<Vec<RelatedEntry>>(document, "derivativeOf")?;
        let derivatives = optional::<Vec<RelatedEntry>>(document, "derivatives")?;
        let entries = optional::<Vec<Entry>>(document, "entries")?;
        let grammatical_features = optional::<Vec<GrammaticalFeature>>(
            document,
            "grammaticalFeatures",
        )?;
        let language = required::<String>(document, "language")?;
        let lexical_category = required::<LexicalCategory>(document, "lexicalCategory")?;
        let notes = optional::<Vec<CategorizedText>>(document, "notes")?;
        let phrasal_verbs = optional::<Vec<RelatedEntry>>(document, "phrasalVerbs")?;
        let phrases = optional::<Vec<RelatedEntry>>(document, "phrases")?;
        let pronunciations = optional::<Vec<Pronunciation>>(document, "pronunciations")?;
        let root = optional::<String>(document, "root")?;
        let text = required::<String>(document, "text")?;
        let variant_forms = optional::<Vec<VariantForm>>(document, "variantForms")?;
        Ok(
            LexicalEntry {
                compounds,
                derivative_of,
                derivatives,
                entries,
                grammatical_features,
                language,
                lexical_category,
                notes,
                phrasal_verbs,
                phrases,
                pronunciations,
                root,
                text,
                variant_forms,
            },
        )
    }
}

/// How a word is said.
#[derive(Debug)]
pub struct Pronunciation {
    pub audio_file: Option<String>,
    pub dialects: Option<Vec<String>>,
    pub phonetic_notation: Option<String>,
    pub phonetic_spelling: Option<String>,
    pub regions: Option<Vec<Region>>,
    pub registers: Option<Vec<Register>>,
}

impl Decode for Pronunciation {
    open spec fn decodable(document: Json) -> bool {
        &&& document is Object
        &&& optional_ok::<String>(document, "audioFile"@)
        &&& optional_ok::<Vec<String>>(document, "dialects"@)
        &&& optional_ok::<String>(document, "phoneticNotation"@)
        &&& optional_ok::<String>(document, "phoneticSpelling"@)
        &&& optional_ok::<Vec<Region>>(document, "regions"@)
        &&& optional_ok::<Vec<Register>>(document, "registers"@)
    }

    open spec fn decodes(document: Json, value: Self) -> bool {
        &&& optional_is::<String>(document, "audioFile"@, value.audio_file)
        &&& optional_is::<Vec<String>>(document, "dialects"@, value.dialects)
        &&& optional_is::<String>(document, "phoneticNotation"@, value.phonetic_notation)
        &&& optional_is::<String>(document, "phoneticSpelling"@, value.phonetic_spelling)
        &&& optional_is::<Vec<Region>>(document, "regions"@, value.regions)
        &&& optional_is::<Vec<Register>>(document, "registers"@, value.registers)
    }

    fn decode(document: &Json) -> (read: Result<Self, DeserializationError>) {
        if !document.is_object() {
            return Err(DeserializationError);
        }
        let audio_file = optional::<String>(document, "audioFile")?;
        let dialects = optional::<Vec<String>>(document, "dialects")?;
        let phonetic_notation = optional::<String>(document, "phoneticNotation")?;
        let phonetic_spelling = optional::<String>(document, "phoneticSpelling")?;
        let regions = optional::<Vec<Region>>(document, "regions")?;
        let registers = optional::<Vec<Register>>(document, "registers")?;
        Ok(
            Pronunciation {
                audio_file,
                dialects,
                phonetic_notation,
                phonetic_spelling,
                regions,
                registers,
            },
        )
    }
}

/// A reference to another entry of the dictionary.
#[derive(Debug)]
pub struct RelatedEntry {
    pub domains: Option<Vec<Domain>>,
    pub id: String,
    pub language: Option<String>,
    pub regions: Option<Vec<Region>>,
    pub registers: Option<Vec<Register>>,
    pub text: String,
}

impl Decode for RelatedEntry {
    open spec fn decodable(document: Json) -> bool {
        &&& document is Object
        &&& optional_ok::<Vec<Domain>>(document, "domains"@)
        &&& required_ok::<String>(document, "id"@)
        &&& optional_ok::<String>(document, "language"@)
        &&& optional_ok::<Vec<Region>>(document, "regions"@)
        &&& optional_ok::<Vec<Register>>(document, "registers"@)
        &&& required_ok::<String>(document, "text"@)
    }

    open spec fn decodes(document: Json, value: Self) -> bool {
        &&& optional_is::<Vec<Domain>>(document, "domains"@, value.domains)
        &&& required_is::<String>(document, "id"@, value.id)
        &&& optional_is::<String>(document, "language"@, value.language)
        &&& optional_is::<Vec<Region>>(document, "regions"@, value.regions)
        &&& optional_is::<Vec<Register>>(document, "registers"@, value.registers)
        &&& required_is::<String>(document, "text"@, value.text)
    }

    fn decode(document: &Json) -> (read: Result<Self, DeserializationError>) {
        if !document.is_object() {
            return Err(DeserializationError);
        }
        let domains = optional::<Vec<Domain>>(document, "domains")?;
        let id = required::<String>(document, "id")?;
        let language = optional::<String>(document, "language")?;
        let regions = optional::<Vec<Region>>(document, "regions")?;
        let registers = optional::<Vec<Register>>(document, "registers")?;
        let text = required::<String>(document, "text")?;
        Ok(RelatedEntry { domains, id, language, regions, registers, text })
    }
}

/// One entry under a lexical category, with its senses.
#[derive(Debug)]
pub struct Entry {
    pub cross_reference_markers: Option<Vec<String>>,
    pub cross_references: Option<Vec<CrossReference>>,
    pub etymologies: Option<Vec<String>>,
    pub grammatical_features: Option<Vec<GrammaticalFeature>>,
    pub homograph_number: Option<String>,
    pub inflections: Option<Vec<InflectedForm>>,
    pub notes: Option<Vec<CategorizedText>>,
    pub pronunciations: Option<Vec<Pronunciation>>,
    pub senses: Option<Vec<Sense>>,
    pub variant_forms: Option<Vec<VariantForm>>,
}

impl Decode for Entry {
    open spec fn decodable(document: Json) -> bool {
        &&& document is Object
        &&& optional_ok::<Vec<String>>(document, "crossReferenceMarkers"@)
        &&& optional_ok::<Vec<CrossReference>>(document, "crossReferences"@)
        &&& optional_ok::<Vec<String>>(document, "etymologies"@)
        &&& optional_ok::<Vec<GrammaticalFeature>>(document, "grammaticalFeatures"@)
        &&& optional_ok::<String>(document, "homographNumber"@)
        &&& optional_ok::<Vec<InflectedForm>>(document, "inflections"@)
        &&& optional_ok::<Vec<CategorizedText>>(document, "notes"@)
        &&& optional_ok::<Vec<Pronunciation>>(document, "pronunciations"@)
        &&& optional_ok::<Vec<Sense>>(document, "senses"@)
        &&& optional_ok::<Vec<VariantForm>>(document, "variantForms"@)
    }

    open spec fn decodes(document: Json, value: Self) -> bool {
        &&& optional_is::<Vec<String>>(
            document,
            "crossReferenceMarkers"@,
            value.cross_reference_markers,
        )
        &&& optional_is::<Vec<CrossReference>>(document, "crossReferences"@, value.cross_references)
        &&& optional_is::<Vec<String>>(document, "etymologies"@, value.etymologies)
        &&& optional_is::<Vec<GrammaticalFeature>>(
            document,
            "grammaticalFeatures"@,
            value.grammatical_features,
        )
        &&& optional_is::<String>(document, "homographNumber"@, value.homograph_number)
        &&& optional_is::<Vec<InflectedForm>>(document, "inflections"@, value.inflections)
        &&& optional_is::<Vec<CategorizedText>>(document, "notes"@, value.notes)
        &&& optional_is::<Vec<Pronunciation>>(document, "pronunciations"@, value.pronunciations)
        &&& optional_is::<Vec<Sense>>(document, "senses"@, value.senses)
        &&& optional_is::<Vec<VariantForm>>(document, "variantForms"@, value.variant_forms)
    }

    fn decode(document: &Json) -> (read: Result<Self, DeserializationError>) {
        if !document.is_object() {
            return Err(DeserializationError);
        }
        let cross_reference_markers = optional::<Vec<String>>(document, "crossReferenceMarkers")?;
        let cross_references = optional::<Vec<CrossReference>>(document, "crossReferences")?;
        let etymologies = optional::<Vec<String>>(document, "etymologies")?;
        let grammatical_features = optional::<Vec<GrammaticalFeature>>(
            document,
            "grammaticalFeatures",
        )?;
        let homograph_number = optional::<String>(document, "homographNumber")?;
        let inflections = optional::<Vec<InflectedForm>>(document, "inflections")?;
        let notes = optional::<Vec<CategorizedText>>(document, "notes")?;
        let pronunciations = optional::<Vec<Pronunciation>>(document, "pronunciations")?;
        let senses = optional::<Vec<Sense>>(document, "senses")?;
        let variant_forms = optional::<Vec<VariantForm>>(document, "variantForms")?;
        Ok(
            Entry {
                cross_reference_markers,
                cross_references,
                etymologies,
                grammatical_features,
                homograph_number,
                inflections,
                notes,
                pronunciations,
                senses,
                variant_forms,
            },
        )
    }
}

/// A grammatical feature such as number or tense.
#[derive(Debug)]
pub struct GrammaticalFeature {
    pub id: String,
    pub text: String,
    pub type_: String,
}

impl Decode for GrammaticalFeature {
    open spec fn decodable(document: Json) -> bool {
        &&& document is Object
        &&& required_ok::<String>(document, "id"@)
        &&& required_ok::<String>(document, "text"@)
        &&& required_ok::<String>(document, "type"@)
    }

    open spec fn decodes(document: Json, value: Self) -> bool {
        &&& required_is::<String>(document, "id"@, value.id)
        &&& required_is::<String>(document, "text"@, value.text)
        &&& required_is::<String>(document, "type"@, value.type_)
    }

    fn decode(document: &Json) -> (read: Result<Self, DeserializationError>) {
        if !document.is_object() {
            return Err(DeserializationError);
        }
        let id = required::<String>(document, "id")?;
        let text = required::<String>(document, "text")?;
        let type_ = required::<String>(document, "type")?;
        Ok(GrammaticalFeature { id, text, type_ })
    }
}

/// A lexical category such as noun or verb.
#[derive(Debug)]
pub struct LexicalCategory {
    pub id: String,
    pub text: String,
}

impl Decode for LexicalCategory {
    open spec fn decodable(document: Json) -> bool {
        &&& document is Object
        &&& required_ok::<String>(document, "id"@)
        &&& required_ok::<String>(document, "text"@)
    }

    open spec fn decodes(document: Json, value: Self) -> bool {
        &&& required_is::<String>(document, "id"@, value.id)
        &&& required_is::<String>(document, "text"@, value.text)
    }

    fn decode(document: &Json) -> (read: Result<Self, DeserializationError>) {
        if !document.is_object() {
            return Err(DeserializationError);
        }
        let id = required::<String>(document, "id")?;
        let text = required::<String>(document, "text")?;
        Ok(LexicalCategory { id, text })
    }
}

/// A note, with the kind of note it is.
#[derive(Debug)]
pub struct CategorizedText {
    pub id: Option<String>,
    pub text: String,
    pub type_: String,
}

impl Decode for CategorizedText {
    open spec fn decodable(document: Json) -> bool {
        &&& document is Object
        &&& optional_ok::<String>(document, "id"@)
        &&& required_ok::<String>(document, "text"@)
        &&& required_ok::<String>(document, "type"@)
    }

    open spec fn decodes(document: Json, value: Self) -> bool {
        &&& optional_is::<String>(document, "id"@, value.id)
        &&& required_is::<String>(document, "text"@, value.text)
        &&& required_is::<String>(document, "type"@, value.type_)
    }

    fn decode(document: &Json) -> (read: Result<Self, DeserializationError>) {
        if !document.is_object() {
            return Err(DeserializationError);
        }
        let id = optional::<String>(document, "id")?;
        let text = required::<String>(document, "text")?;
        let type_ = required::<String>(document, "type")?;
        Ok(CategorizedText { id, text, type_ })
    }
}

/// Another form in which a word is written.
#[derive(Debug)]
pub struct VariantForm {
    pub domains: Option<Vec<Domain>>,
    pub notes: Option<Vec<CategorizedText>>,
    pub pronunciations: Option<Vec<Pronunciation>>,
    pub regions: Option<Vec<Region>>,
    pub registers: Option<Vec<Register>>,
    pub text: String,
}

impl Decode for VariantForm {
    open spec fn decodable(document: Json) -> bool {
        &&& document is Object
        &&& optional_ok::<Vec<Domain>>(document, "domains"@)
        &&& optional_ok::<Vec<CategorizedText>>(document, "notes"@)
        &&& optional_ok::<Vec<Pronunciation>>(document, "pronunciations"@)
        &&& optional_ok::<Vec<Region>>(document, "regions"@)
        &&& optional_ok::<Vec<Register>>(document, "registers"@)
        &&& required_ok::<String>(document, "text"@)
    }

    open spec fn decodes(document: Json, value: Self) -> bool {
        &&& optional_is::<Vec<Domain>>(document, "domains"@, value.domains)
        &&& optional_is::<Vec<CategorizedText>>(document, "notes"@, value.notes)
        &&& optional_is::<Vec<Pronunciation>>(document, "pronunciations"@, value.pronunciations)
        &&& optional_is::<Vec<Region>>(document, "regions"@, value.regions)
        &&& optional_is::<Vec<Register>>(document, "registers"@, value.registers)
        &&& required_is::<String>(document, "text"@, value.text)
    }

    fn decode(document: &Json) -> (read: Result<Self, DeserializationError>) {
        if !document.is_object() {
            return Err(DeserializationError);
        }
        let domains = optional::<Vec<Domain>>(document, "domains")?;
        let notes = optional::<Vec<CategorizedText>>(document, "notes")?;
        let pronunciations = optional::<Vec<Pronunciation>>(document, "pronunciations")?;
        let regions = optional::<Vec<Region>>(document, "regions")?;
        let registers = optional::<Vec<Register>>(document, "registers")?;
        let text = required::<String>(document, "text")?;
        Ok(VariantForm { domains, notes, pronunciations, regions, registers, text })
    }
}

/// A pointer to a related entry.
#[derive(Debug)]
pub struct CrossReference {
    pub id: String,
    pub text: String,
    pub type_: String,
}

impl Decode for CrossReference {
    open spec fn decodable(document: Json) -> bool {
        &&& document is Object
        &&& required_ok::<String>(document, "id"@)
        &&& required_ok::<String>(document, "text"@)
        &&& required_ok::<String>(document, "type"@)
    }

    open spec fn decodes(document: Json, value: Self) -> bool {
        &&& required_is::<String>(document, "id"@, value.id)
        &&& required_is::<String>(document, "text"@, value.text)
        &&& required_is::<String>(document, "type"@, value.type_)
    }

    fn decode(document: &Json) -> (read: Result<Self, DeserializationError>) {
        if !document.is_object() {
            return Err(DeserializationError);
        }
        let id = required::<String>(document, "id")?;
        let text = required::<String>(document, "text")?;
        let type_ = required::<String>(document, "type")?;
        Ok(CrossReference { id, text, type_ })
    }
}

/// An inflection of a word.
#[derive(Debug)]
pub struct InflectedForm {
    pub domains: Option<Vec<Domain>>,
    pub grammatical_features: Option<Vec<GrammaticalFeature>>,
    pub inflected_form: String,
    pub lexical_category: Option<LexicalCategory>,
    pub pronunciations: Option<Vec<Pronunciation>>,
    pub regions: Option<Vec<Region>>,
    pub registers: Option<Vec<Register>>,
}

impl Decode for InflectedForm {
    open spec fn decodable(document: Json) -> bool {
        &&& document is Object
        &&& optional_ok::<Vec<Domain>>(document, "domains"@)
        &&& optional_ok::<Vec<GrammaticalFeature>>(document, "grammaticalFeatures"@)
        &&& required_ok::<String>(document, "inflectedForm"@)
        &&& optional_ok::<LexicalCategory>(document, "lexicalCategory"@)
        &&& optional_ok::<Vec<Pronunciation>>(document, "pronunciations"@)
        &&& optional_ok::<Vec<Region>>(document, "regions"@)
        &&& optional_ok::<Vec<Register>>(document, "registers"@)
    }

    open spec fn decodes(document: Json, value: Self) -> bool {
        &&& optional_is::<Vec<Domain>>(document, "domains"@, value.domains)
        &&& optional_is::<Vec<GrammaticalFeature>>(
            document,
            "grammaticalFeatures"@,
            value.grammatical_features,
        )
        &&& required_is::<String>(document, "inflectedForm"@, value.inflected_form)
        &&& optional_is::<LexicalCategory>(document, "lexicalCategory"@, value.lexical_category)
        &&& optional_is::<Vec<Pronunciation>>(document, "pronunciations"@, value.pronunciations)
        &&& optional_is::<Vec<Region>>(document, "regions"@, value.regions)
        &&& optional_is::<Vec<Register>>(document, "registers"@, value.registers)
    }

    fn decode(document: &Json) -> (read: Result<Self, DeserializationError>) {
        if !document.is_object() {
            return Err(DeserializationError);
        }
        let domains = optional::<Vec<Domain>>(document, "domains")?;
        let grammatical_features = optional::<Vec<GrammaticalFeature>>(
            document,
            "grammaticalFeatures",
        )?;
        let inflected_form = required::<String>(document, "inflectedForm")?;
        let lexical_category = optional::<LexicalCategory>(document, "lexicalCategory")?;
        let pronunciations = optional::<Vec<Pronunciation>>(document, "pronunciations")?;
        let regions = optional::<Vec<Region>>(document, "regions")?;
        let registers = optional::<Vec<Register>>(document, "registers")?;
        Ok(
            InflectedForm {
                domains,
                grammatical_features,
                inflected_form,
                lexical_category,
                pronunciations,
                regions,
                registers,
            },
        )
    }
}

/// One meaning of a word. A sense may hold further senses of the same shape,
/// to any depth.
#[derive(Debug)]
pub struct Sense {
    pub antonyms: Option<Vec<SynonymAntonym>>,
    pub constructions: Option<Vec<InlineModel2>>,
    pub cross_reference_markers: Option<Vec<String>>,
    pub cross_references: Option<Vec<CrossReference>>,
    pub definitions: Option<Vec<String>>,
    pub domain_classes: Option<Vec<DomainClass>>,
    pub domains: Option<Vec<Domain>>,
    pub etymologies: Option<Vec<String>>,
    pub examples: Option<Vec<Example>>,
    pub id: Option<String>,
    pub inflections: Option<Vec<InflectedForm>>,
    pub notes: Option<Vec<CategorizedText>>,
    pub pronunciations: Option<Vec<Pronunciation>>,
    pub regions: Option<Vec<Region>>,
    pub registers: Option<Vec<Register>>,
    pub semantic_classes: Option<Vec<SemanticClass>>,
    pub short_definitions: Option<Vec<String>>,
    pub subsenses: Option<Vec<Sense>>,
    pub synonyms: Option<Vec<SynonymAntonym>>,
    pub thesaurus_links: Option<Vec<ThesaurusLink>>,
    pub variant_forms: Option<Vec<VariantForm>>,
}

/// Whether `document` has the shape of a sense: an object whose members,
/// where they are there, have the shape of their type, its `subsenses` being a
/// list of documents of this same shape.
pub open spec fn sense_decodable(document: Json) -> bool
    decreases document,
{
    &&& document is Object
    &&& optional_ok::<Vec<SynonymAntonym>>(document, "antonyms"@)
    &&& optional_ok::<Vec<InlineModel2>>(document, "constructions"@)
    &&& optional_ok::<Vec<String>>(document, "crossReferenceMarkers"@)
    &&& optional_ok::<Vec<CrossReference>>(document, "crossReferences"@)
    &&& optional_ok::<Vec<String>>(document, "definitions"@)
    &&& optional_ok::<Vec<DomainClass>>(document, "domainClasses"@)
    &&& optional_ok::<Vec<Domain>>(document, "domains"@)
    &&& optional_ok::<Vec<String>>(document, "etymologies"@)
    &&& optional_ok::<Vec<Example>>(document, "examples"@)
    &&& optional_ok::<String>(document, "id"@)
    &&& optional_ok::<Vec<InflectedForm>>(document, "inflections"@)
    &&& optional_ok::<Vec<CategorizedText>>(document, "notes"@)
    &&& optional_ok::<Vec<Pronunciation>>(document, "pronunciations"@)
    &&& optional_ok::<Vec<Region>>(document, "regions"@)
    &&& optional_ok::<Vec<Register>>(document, "registers"@)
    &&& optional_ok::<Vec<SemanticClass>>(document, "semanticClasses"@)
    &&& optional_ok::<Vec<String>>(document, "shortDefinitions"@)
    &&& optional_ok::<Vec<SynonymAntonym>>(document, "synonyms"@)
    &&& optional_ok::<Vec<ThesaurusLink>>(document, "thesaurusLinks"@)
    &&& optional_ok::<Vec<VariantForm>>(document, "variantForms"@)
    &&& match document.present("subsenses"@) {
        None => true,
        Some(list) => {
            &&& list is Array
            &&& forall|i: int|
                0 <= i < list->Array_0.len() ==> {
                    proof {
                        lemma_member_below(document, "subsenses"@);
                        broadcast use vstd::std_specs::vec::axiom_vec_index_decreases;

                    }
                    sense_decodable(#[trigger] list->Array_0[i])
                }
        },
    }
}

/// Whether `value` is the sense that `document` holds.
pub open spec fn sense_decodes(document: Json, value: Sense) -> bool
    decreases document,
{
    &&& optional_is::<Vec<SynonymAntonym>>(document, "antonyms"@, value.antonyms)
    &&& optional_is::<Vec<InlineModel2>>(document, "constructions"@, value.constructions)
    &&& optional_is::<Vec<String>>(
        document,
        "crossReferenceMarkers"@,
        value.cross_reference_markers,
    )
    &&& optional_is::<Vec<CrossReference>>(document, "crossReferences"@, value.cross_references)
    &&& optional_is::<Vec<String>>(document, "definitions"@, value.definitions)
    &&& optional_is::<Vec<DomainClass>>(document, "domainClasses"@, value.domain_classes)
    &&& optional_is::<Vec<Domain>>(document, "domains"@, value.domains)
    &&& optional_is::<Vec<String>>(document, "etymologies"@, value.etymologies)
    &&& optional_is::<Vec<Example>>(document, "examples"@, value.examples)
    &&& optional_is::<String>(document, "id"@, value.id)
    &&& optional_is::<Vec<InflectedForm>>(document, "inflections"@, value.inflections)
    &&& optional_is::<Vec<CategorizedText>>(document, "notes"@, value.notes)
    &&& optional_is::<Vec<Pronunciation>>(document, "pronunciations"@, value.pronunciations)
    &&& optional_is::<Vec<Region>>(document, "regions"@, value.regions)
    &&& optional_is::<Vec<Register>>(document, "registers"@, value.registers)
    &&& optional_is::<Vec<SemanticClass>>(document, "semanticClasses"@, value.semantic_classes)
    &&& optional_is::<Vec<String>>(document, "shortDefinitions"@, value.short_definitions)
    &&& optional_is::<Vec<SynonymAntonym>>(document, "synonyms"@, value.synonyms)
    &&& optional_is::<Vec<ThesaurusLink>>(document, "thesaurusLinks"@, value.thesaurus_links)
    &&& optional_is::<Vec<VariantForm>>(document, "variantForms"@, value.variant_forms)
    &&& match document.present("subsenses"@) {
        None => value.subsenses is None,
        Some(list) => {
            &&& list is Array
            &&& value.subsenses matches Some(subsenses)
            &&& subsenses.len() == list->Array_0.len()
            &&& forall|i: int|
                0 <= i < list->Array_0.len() ==> {
                    proof {
                        lemma_member_below(document, "subsenses"@);
                        broadcast use vstd::std_specs::vec::axiom_vec_index_decreases;

                    }
                    sense_decodes(#[trigger] list->Array_0[i], subsenses[i])
                }
        },
    }
}

/// Reads a list of senses.
fn decode_sense_list(items: &Vec<Json>) -> (read: Result<Vec<Sense>, DeserializationError>)
    ensures
        read is Ok <==> forall|i: int|
            0 <= i < items.len() ==> sense_decodable(#[trigger] items[i]),
        read matches Ok(senses) ==> senses.len() == items.len() && forall|i: int|
            0 <= i < items.len() ==> sense_decodes(#[trigger] items[i], senses[i]),
    decreases items,
{
    let mut senses: Vec<Sense> = Vec::new();
    let mut i: usize = 0;
    while i < items.len()
        invariant
            i <= items.len(),
            senses.len() == i,
            forall|k: int| 0 <= k < i ==> sense_decodable(#[trigger] items[k]),
            forall|k: int| 0 <= k < i ==> sense_decodes(#[trigger] items[k], senses[k]),
        decreases items.len() - i,
    {
        proof {
            broadcast use vstd::std_specs::vec::axiom_vec_index_decreases;

        }
        match decode_sense(&items[i]) {
            Ok(sense) => senses.push(sense),
            Err(error) => return Err(error),
        }
        i += 1;
    }
    Ok(senses)
}

/// Reads a sense, and the senses below it.
pub fn decode_sense(document: &Json) -> (read: Result<Sense, DeserializationError>)
    ensures
        read is Ok <==> sense_decodable(*document),
        read matches Ok(value) ==> sense_decodes(*document, value),
    decreases document,
{
    if !document.is_object() {
        return Err(DeserializationError);
    }
    let antonyms = optional::<Vec<SynonymAntonym>>(document, "antonyms")?;
    let constructions = optional::<Vec<InlineModel2>>(document, "constructions")?;
    let cross_reference_markers = optional::<Vec<String>>(document, "crossReferenceMarkers")?;
    let cross_references = optional::<Vec<CrossReference>>(document, "crossReferences")?;
    let definitions = optional::<Vec<String>>(document, "definitions")?;
    let domain_classes = optional::<Vec<DomainClass>>(document, "domainClasses")?;
    let domains = optional::<Vec<Domain>>(document, "domains")?;
    let etymologies = optional::<Vec<String>>(document, "etymologies")?;
    let examples = optional::<Vec<Example>>(document, "examples")?;
    let id = optional::<String>(document, "id")?;
    let inflections = optional::<Vec<InflectedForm>>(document, "inflections")?;
    let notes = optional::<Vec<CategorizedText>>(document, "notes")?;
    let pronunciations = optional::<Vec<Pronunciation>>(document, "pronunciations")?;
    let regions = optional::<Vec<Region>>(document, "regions")?;
    let registers = optional::<Vec<Register>>(document, "registers")?;
    let semantic_classes = optional::<Vec<SemanticClass>>(document, "semanticClasses")?;
    let short_definitions = optional::<Vec<String>>(document, "shortDefinitions")?;
    let subsenses = match document.get_present("subsenses") {
        None => None,
        Some(Json::Array(items)) => {
            proof {
                lemma_member_below(*document, "subsenses"@);
            }
            Some(decode_sense_list(items)?)
        },
        Some(_) => {
            return Err(DeserializationError);
        },
    };
    let synonyms = optional::<Vec<SynonymAntonym>>(document, "synonyms")?;
    let thesaurus_links = optional::<Vec<ThesaurusLink>>(document, "thesaurusLinks")?;
    let variant_forms = optional::<Vec<VariantForm>>(document, "variantForms")?;
    Ok(
        Sense {
            antonyms,
            constructions,
            cross_reference_markers,
            cross_references,
            definitions,
            domain_classes,
            domains,
            etymologies,
            examples,
            id,
            inflections,
            notes,
            pronunciations,
            regions,
            registers,
            semantic_classes,
            short_definitions,
            subsenses,
            synonyms,
            thesaurus_links,
            variant_forms,
        },
    )
}

impl Decode for Sense {
    open spec fn decodable(document: Json) -> bool {
        sense_decodable(document)
    }

    open spec fn decodes(document: Json, value: Self) -> bool {
        sense_decodes(document, value)
    }

    fn decode(document: &Json) -> (read: Result<Self, DeserializationError>) {
        decode_sense(document)
    }
}

/// A construction in which a sense is used.
#[derive(Debug)]
pub struct InlineModel2 {
    pub domains: Option<Vec<Domain>>,
    pub examples: Option<Vec<ExampleText>>,
    pub notes: Option<Vec<CategorizedText>>,
    pub regions: Option<Vec<Region>>,
    pub registers: Option<Vec<Register>>,
    pub text: String,
}

impl Decode for InlineModel2 {
    open spec fn decodable(document: Json) -> bool {
        &&& document is Object
        &&& optional_ok::<Vec<Domain>>(document, "domains"@)
        &&& optional_ok::<Vec<ExampleText>>(document, "examples"@)
        &&& optional_ok::<Vec<CategorizedText>>(document, "notes"@)
        &&& optional_ok::<Vec<Region>>(document, "regions"@)
        &&& optional_ok::<Vec<Register>>(document, "registers"@)
        &&& required_ok::<String>(document, "text"@)
    }

    open spec fn decodes(document: Json, value: Self) -> bool {
        &&& optional_is::<Vec<Domain>>(document, "domains"@, value.domains)
        &&& optional_is::<Vec<ExampleText>>(document, "examples"@, value.examples)
        &&& optional_is::<Vec<CategorizedText>>(document, "notes"@, value.notes)
        &&& optional_is::<Vec<Region>>(document, "regions"@, value.regions)
        &&& optional_is::<Vec<Register>>(document, "registers"@, value.registers)
        &&& required_is::<String>(document, "text"@, value.text)
    }

    fn decode(document: &Json) -> (read: Result<Self, DeserializationError>) {
        if !document.is_object() {
            return Err(DeserializationError);
        }
        let domains = optional::<Vec<Domain>>(document, "domains")?;
        let examples = optional::<Vec<ExampleText>>(document, "examples")?;
        let notes = optional::<Vec<CategorizedText>>(document, "notes")?;
        let regions = optional::<Vec<Region>>(document, "regions")?;
        let registers = optional::<Vec<Register>>(document, "registers")?;
        let text = required::<String>(document, "text")?;
        Ok(InlineModel2 { domains, examples, notes, regions, registers, text })
    }
}

/// A word of the same or of the opposite meaning.
#[derive(Debug)]
pub struct SynonymAntonym {
    pub domains: Option<Vec<Domain>>,
    pub id: Option<String>,
    pub language: Option<String>,
    pub regions: Option<Vec<Region>>,
    pub registers: Option<Vec<Register>>,
    pub text: String,
}

impl Decode for SynonymAntonym {
    open spec fn decodable(document: Json) -> bool {
        &&& document is Object
        &&& optional_ok::<Vec<Domain>>(document, "domains"@)
        &&& optional_ok::<String>(document, "id"@)
        &&& optional_ok::<String>(document, "language"@)
        &&& optional_ok::<Vec<Region>>(document, "regions"@)
        &&& optional_ok::<Vec<Register>>(document, "registers"@)
        &&& required_ok::<String>(document, "text"@)
    }

    open spec fn decodes(document: Json, value: Self) -> bool {
        &&& optional_is::<Vec<Domain>>(document, "domains"@, value.domains)
        &&& optional_is::<String>(document, "id"@, value.id)
        &&& optional_is::<String>(document, "language"@, value.language)
        &&& optional_is::<Vec<Region>>(document, "regions"@, value.regions)
        &&& optional_is::<Vec<Register>>(document, "registers"@, value.registers)
        &&& required_is::<String>(document, "text"@, value.text)
    }

    fn decode(document: &Json) -> (read: Result<Self, DeserializationError>) {
        if !document.is_object() {
            return Err(DeserializationError);
        }
        let domains = optional::<Vec<Domain>>(document, "domains")?;
        let id = optional::<String>(document, "id")?;
        let language = optional::<String>(document, "language")?;
        let regions = optional::<Vec<Region>>(document, "regions")?;
        let registers = optional::<Vec<Register>>(document, "registers")?;
        let text = required::<String>(document, "text")?;
        Ok(SynonymAntonym { domains, id, language, regions, registers, text })
    }
}

/// The words of an example of a construction.
#[derive(Debug)]
pub struct ExampleText(pub Vec<String>);

impl Decode for ExampleText {
    open spec fn decodable(document: Json) -> bool {
        Vec::<String>::decodable(document)
    }

    open spec fn decodes(document: Json, value: Self) -> bool {
        Vec::<String>::decodes(document, value.0)
    }

    fn decode(document: &Json) -> (read: Result<Self, DeserializationError>) {
        let words = Vec::<String>::decode(document)?;
        Ok(ExampleText(words))
    }
}

/// A subject area.
#[derive(Debug)]
pub struct Domain {
    pub id: String,
    pub text: String,
}

impl Decode for Domain {
    open spec fn decodable(document: Json) -> bool {
        &&& document is Object
        &&& required_ok::<String>(document, "id"@)
        &&& required_ok::<String>(document, "text"@)
    }

    open spec fn decodes(document: Json, value: Self) -> bool {
        &&& required_is::<String>(document, "id"@, value.id)
        &&& required_is::<String>(document, "text"@, value.text)
    }

    fn decode(document: &Json) -> (read: Result<Self, DeserializationError>) {
        if !document.is_object() {
            return Err(DeserializationError);
        }
        let id = required::<String>(document, "id")?;
        let text = required::<String>(document, "text")?;
        Ok(Domain { id, text })
    }
}

/// A region in which a word is used.
#[derive(Debug)]
pub struct Region {
    pub id: String,
    pub text: String,
}

impl Decode for Region {
    open spec fn decodable(document: Json) -> bool {
        &&& document is Object
        &&& required_ok::<String>(document, "id"@)
        &&& required_ok::<String>(document, "text"@)
    }

    open spec fn decodes(document: Json, value: Self) -> bool {
        &&& required_is::<String>(document, "id"@, value.id)
        &&& required_is::<String>(document, "text"@, value.text)
    }

    fn decode(document: &Json) -> (read: Result<Self, DeserializationError>) {
        if !document.is_object() {
            return Err(DeserializationError);
        }
        let id = required::<String>(document, "id")?;
        let text = required::<String>(document, "text")?;
        Ok(Region { id, text })
    }
}

/// A level of language use, such as formal.
#[derive(Debug)]
pub struct Register {
    pub id: String,
    pub text: String,
}

impl Decode for Register {
    open spec fn decodable(document: Json) -> bool {
        &&& document is Object
        &&& required_ok::<String>(document, "id"@)
        &&& required_ok::<String>(document, "text"@)
    }

    open spec fn decodes(document: Json, value: Self) -> bool {
        &&& required_is::<String>(document, "id"@, value.id)
        &&& required_is::<String>(document, "text"@, value.text)
    }

    fn decode(document: &Json) -> (read: Result<Self, DeserializationError>) {
        if !document.is_object() {
            return Err(DeserializationError);
        }
        let id = required::<String>(document, "id")?;
        let text = required::<String>(document, "text")?;
        Ok(Register { id, text })
    }
}

/// A class of subject areas.
#[derive(Debug)]
pub struct DomainClass {
    pub id: String,
    pub text: String,
}

impl Decode for DomainClass {
    open spec fn decodable(document: Json) -> bool {
        &&& document is Object
        &&& required_ok::<String>(document, "id"@)
        &&& required_ok::<String>(document, "text"@)
    }

    open spec fn decodes(document: Json, value: Self) -> bool {
        &&& required_is::<String>(document, "id"@, value.id)
        &&& required_is::<String>(document, "text"@, value.text)
    }

    fn decode(document: &Json) -> (read: Result<Self, DeserializationError>) {
        if !document.is_object() {
            return Err(DeserializationError);
        }
        let id = required::<String>(document, "id")?;
        let text = required::<String>(document, "text")?;
        Ok(DomainClass { id, text })
    }
}

/// A sentence that shows a sense in use.
#[derive(Debug)]
pub struct Example {
    pub definitions: Option<Vec<String>>,
    pub domains: Option<Vec<Domain>>,
    pub notes: Option<Vec<CategorizedText>>,
    pub regions: Option<Vec<Region>>,
    pub registers: Option<Vec<Register>>,
    pub sense_ids: Option<Vec<String>>,
    pub text: String,
}

impl Decode for Example {
    open spec fn decodable(document: Json) -> bool {
        &&& document is Object
        &&& optional_ok::<Vec<String>>(document, "definitions"@)
        &&& optional_ok::<Vec<Domain>>(document, "domains"@)
        &&& optional_ok::<Vec<CategorizedText>>(document, "notes"@)
        &&& optional_ok::<Vec<Region>>(document, "regions"@)
        &&& optional_ok::<Vec<Register>>(document, "registers"@)
        &&& optional_ok::<Vec<String>>(document, "senseIds"@)
        &&& required_ok::<String>(document, "text"@)
    }

    open spec fn decodes(document: Json, value: Self) -> bool {
        &&& optional_is::<Vec<String>>(document, "definitions"@, value.definitions)
        &&& optional_is::<Vec<Domain>>(document, "domains"@, value.domains)
        &&& optional_is::<Vec<CategorizedText>>(document, "notes"@, value.notes)
        &&& optional_is::<Vec<Region>>(document, "regions"@, value.regions)
        &&& optional_is::<Vec<Register>>(document, "registers"@, value.registers)
        &&& optional_is::<Vec<String>>(document, "senseIds"@, value.sense_ids)
        &&& required_is::<String>(document, "text"@, value.text)
    }

    fn decode(document: &Json) -> (read: Result<Self, DeserializationError>) {
        if !document.is_object() {
            return Err(DeserializationError);
        }
        let definitions = optional::<Vec<String>>(document, "definitions")?;
        let domains = optional::<Vec<Domain>>(document, "domains")?;
        let notes = optional::<Vec<CategorizedText>>(document, "notes")?;
        let regions = optional::<Vec<Region>>(document, "regions")?;
        let registers = optional::<Vec<Register>>(document, "registers")?;
        let sense_ids = optional::<Vec<String>>(document, "senseIds")?;
        let text = required::<String>(document, "text")?;
        Ok(Example { definitions, domains, notes, regions, registers, sense_ids, text })
    }
}

/// A class of meanings.
#[derive(Debug)]
pub struct SemanticClass {
    pub id: String,
    pub text: String,
}

impl Decode for SemanticClass {
    open spec fn decodable(document: Json) -> bool {
        &&& document is Object
        &&& required_ok::<String>(document, "id"@)
        &&& required_ok::<String>(document, "text"@)
    }

    open spec fn decodes(document: Json, value: Self) -> bool {
        &&& required_is::<String>(document, "id"@, value.id)
        &&& required_is::<String>(document, "text"@, value.text)
    }

    fn decode(document: &Json) -> (read: Result<Self, DeserializationError>) {
        if !document.is_object() {
            return Err(DeserializationError);
        }
        let id = required::<String>(document, "id")?;
        let text = required::<String>(document, "text")?;
        Ok(SemanticClass { id, text })
    }
}

/// A link into the thesaurus.
#[derive(Debug)]
pub struct ThesaurusLink {
    pub entry_id: String,
    pub sense_id: String,
}

impl Decode for ThesaurusLink {
    open spec fn decodable(document: Json) -> bool {
        &&& document is Object
        &&& required_ok::<String>(document, "entry_id"@)
        &&& required_ok::<String>(document, "sense_id"@)
    }

    open spec fn decodes(document: Json, value: Self) -> bool {
        &&& required_is::<String>(document, "entry_id"@, value.entry_id)
        &&& required_is::<String>(document, "sense_id"@, value.sense_id)
    }

    fn decode(document: &Json) -> (read: Result<Self, DeserializationError>) {
        if !document.is_object() {
            return Err(DeserializationError);
        }
        let entry_id = required::<String>(document, "entry_id")?;
        let sense_id = required::<String>(document, "sense_id")?;
        Ok(ThesaurusLink { entry_id, sense_id })
    }
}

/// A headword without the member `lexicalEntries` is refused.
pub proof fn lemma_headword_needs_lexical_entries(document: Json)
    requires
        document.member("lexicalEntries"@) is None,
    ensures
        !HeadwordEntry::decodable(document),
{
}

/// A headword that was read has at least one lexical entry.
pub proof fn lemma_headword_has_lexical_entries(document: Json, value: HeadwordEntry)
    requires
        HeadwordEntry::decodable(document),
        HeadwordEntry::decodes(document, value),
    ensures
        value.well_formed(),
{
}

/// The senses below a sense are read as any list of senses is: one level of
/// documents gives one level of values, however deep the nesting goes.
pub proof fn lemma_subsenses_are_senses(document: Json, value: Sense)
    ensures
        sense_decodable(document) ==> optional_ok::<Vec<Sense>>(document, "subsenses"@),
        sense_decodes(document, value) ==> optional_is::<Vec<Sense>>(
            document,
            "subsenses"@,
            value.subsenses,
        ),
{
}

} // verus!
