//! What the service answers with, and how a JSON document is read into it.

pub mod decode;
pub mod entries;

pub use entries::{
    CategorizedText, CrossReference, Domain, DomainClass, Entry, Example, ExampleText,
    GrammaticalFeature, HeadwordEntry, InflectedForm, InlineModel2, LexicalCategory, LexicalEntry,
    Pronunciation, Region, Register, RelatedEntry, RetrieveEntry, SemanticClass, Sense,
    SynonymAntonym, ThesaurusLink, VariantForm,
};
