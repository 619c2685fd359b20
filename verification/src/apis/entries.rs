//! The entries operation: definitions, pronunciations, example sentences,
//! grammatical information and word origins of a headword.

use crate::json::{json_document, parse, Json};
use crate::models::entries::RetrieveEntry;
use crate::text::{join, join_strings, join_strs, lemma_join_concat, str_eq, str_views, views};
use crate::{classified, is_api_error_status, Client, Endpoint, Error, Reply, Request};
use vstd::prelude::*;
use vstd::string::*;

verus! {

/// A part of an entry that a lookup can be narrowed to.
#[derive(Debug, Clone, Copy, PartialEq, Eq, Structural)]
pub enum Field {
    Definitions,
    Domains,
    Etymologies,
    Examples,
    Pronunciations,
    Regions,
    Registers,
    VariantForms,
}

impl Field {
    /// The name the service knows this part by.
    pub open spec fn spec_as_str(self) -> Seq<char> {
        match self {
            Field::Definitions => "definitions"@,
            Field::Domains => "domains"@,
            Field::Etymologies => "etymologies"@,
            Field::Examples => "examples"@,
            Field::Regions => "regions"@,
            Field::Registers => "registers"@,
            Field::VariantForms => "variantForms"@,
            Field::Pronunciations => "pronunciations"@,
        }
    }

    /// The name the service knows this part by.
    pub fn as_str(&self) -> (name: &'static str)
        ensures
            name@ == self.spec_as_str(),
    {
        match self {
            Field::Definitions => "definitions",
            Field::Domains => "domains",
            Field::Etymologies => "etymologies",
            Field::Examples => "examples",
            Field::Regions => "regions",
            Field::Registers => "registers",
            Field::VariantForms => "variantForms",
            Field::Pronunciations => "pronunciations",
        }
    }
}

/// The names of a list of parts, in order.
pub open spec fn field_names(fields: Seq<Field>) -> Seq<Seq<char>> {
    fields.map_values(|field: Field| field.spec_as_str())
}

/// An option of a lookup: a kind, and the tokens given for it.
///
/// A lookup takes each kind at most once; [`Param::has_distinct_kinds`] tells
/// whether a list keeps to that. A kind given twice is still written twice,
/// each in its place: nothing is merged, dropped or refused here, and which
/// of the two counts is for the service to say.
#[derive(Debug)]
pub enum Param<'eq> {
    Fields(&'eq [Field]),
    GrammaticalFeatures(&'eq [&'eq str]),
    LexicalCategory(&'eq [&'eq str]),
    Domains(&'eq [&'eq str]),
    Registers(&'eq [&'eq str]),
    StrictMatch(&'eq [&'eq str]),
}

impl<'eq> Param<'eq> {
    /// The name under which this option goes into a query.
    pub open spec fn spec_key(self) -> Seq<char> {
        match self {
            Param::Fields(_) => "fields"@,
            Param::GrammaticalFeatures(_) => "grammaticalFeatures"@,
            Param::LexicalCategory(_) => "lexicalCategory"@,
            Param::Domains(_) => "domains"@,
            Param::Registers(_) => "registers"@,
            Param::StrictMatch(_) => "strictMatch"@,
        }
    }

    /// The tokens given for this option, in order.
    pub open spec fn spec_tokens(self) -> Seq<Seq<char>> {
        match self {
            Param::Fields(fields) => field_names(fields@),
            Param::GrammaticalFeatures(tokens)
            | Param::LexicalCategory(tokens)
            | Param::Domains(tokens)
            | Param::Registers(tokens)
            | Param::StrictMatch(tokens) => str_views(tokens@),
        }
    }

    /// The value under which this option goes into a query: its tokens with
    /// commas between them.
    pub open spec fn spec_value(self) -> Seq<char> {
        join(self.spec_tokens(), ","@)
    }

    /// This option as it stands in a query.
    pub open spec fn spec_pair(self) -> Seq<char> {
        qs_pair_text(self.spec_key(), self.spec_value())
    }

    /// Whether the value of this option goes into a query as it is.
    pub open spec fn is_plain(self) -> bool {
        query_safe(self.spec_value())
    }

    /// This option as name, `=` and value, with nothing escaped.
    pub open spec fn plain_pair(self) -> Seq<char> {
        self.spec_key() + "="@ + self.spec_value()
    }

    /// The name under which this option goes into a query.
    pub fn key(&self) -> (key: &'static str)
        ensures
            key@ == self.spec_key(),
    {
        match self {
            Param::Fields(_) => "fields",
            Param::GrammaticalFeatures(_) => "grammaticalFeatures",
            Param::LexicalCategory(_) => "lexicalCategory",
            Param::Domains(_) => "domains",
            Param::Registers(_) => "registers",
            Param::StrictMatch(_) => "strictMatch",
        }
    }

    /// The value under which this option goes into a query, before any
    /// escaping: its tokens with commas between them.
    pub fn value(&self) -> (value: String)
        ensures
            value@ == self.spec_value(),
    {
        match self {
            Param::Fields(fields) => joined_fields(fields),
            Param::GrammaticalFeatures(tokens)
            | Param::LexicalCategory(tokens)
            | Param::Domains(tokens)
            | Param::Registers(tokens)
            | Param::StrictMatch(tokens) => joined_tokens(tokens),
        }
    }

    /// Whether no kind of option is given twice.
    pub fn has_distinct_kinds(params: &[Param<'eq>]) -> (yes: bool)
        ensures
            yes == distinct_kinds(params@),
    {
        let mut j: usize = 0;
        while j < params.len()
            invariant
                j <= params.len(),
                forall|a: int, b: int|
                    0 <= a < b < j ==> params[a].spec_key() != params[b].spec_key(),
            decreases params.len() - j,
        {
            let mut i: usize = 0;
            while i < j
                invariant
                    i <= j < params.len(),
                    forall|a: int|
                        0 <= a < i ==> params[a].spec_key() != params[j as int].spec_key(),
                decreases j - i,
            {
                if str_eq(params[i].key(), params[j].key()) {
                    return false;
                }
                i += 1;
            }
            j += 1;
        }
        true
    }

    /// The query for a list of options: each as name and value, in the order
    /// given, with `&` between each two.
    ///
    /// Names and values are escaped as a query string asks. Where every
    /// value is free of what needs escaping, the query is just the names,
    /// `=` and the values.
    pub fn serialize(params: &[Param<'eq>]) -> (query: String)
        ensures
            query@ == spec_query(params@),
            all_plain(params@) ==> query@ == plain_query(params@),
    {
        let mut pairs: Vec<String> = Vec::new();
        let mut i: usize = 0;
        while i < params.len()
            invariant
                i <= params.len(),
                views(pairs@) == spec_pairs(params@).take(i as int),
                forall|k: int|
                    0 <= k < i && (#[trigger] params[k]).is_plain() ==> params[k].spec_pair()
                        == params[k].plain_pair(),
            decreases params.len() - i,
        {
            let value = params[i].value();
            proof {
                lemma_keys_are_safe(params[i as int]);
            }
            let pair = qs_pair(params[i].key(), value.as_str());
            let ghost before = pairs@;
            pairs.push(pair);
            assert(views(pairs@) =~= spec_pairs(params@).take(i + 1)) by {
                assert(views(before).len() == i);
                assert forall|k: int| 0 <= k < i implies views(pairs@)[k] == spec_pairs(
                    params@,
                )[k] by {
                    assert(views(before)[k] == spec_pairs(params@).take(i as int)[k]);
                }
            }
            i += 1;
        }
        assert(spec_pairs(params@).take(params.len() as int) =~= spec_pairs(params@));
        proof {
            if all_plain(params@) {
                assert(spec_pairs(params@) =~= plain_pairs(params@));
            }
        }
        join_pairs(&pairs)
    }
}

/// Whether no kind of option is given twice: no two options of a list go
/// under the same name.
pub open spec fn distinct_kinds(params: Seq<Param>) -> bool {
    forall|a: int, b: int|
        0 <= a < b < params.len() ==> params[a].spec_key() != params[b].spec_key()
}

/// Whether a character goes into a query string as it is: a visible ASCII
/// character other than `"`, `#`, `%`, `&`, `+`, `<`, `=`, `>`, `[` and `]`.
pub open spec fn is_query_safe(c: char) -> bool {
    &&& 0x21 <= c as u32 <= 0x7e
    &&& c != '"' && c != '#' && c != '%' && c != '&' && c != '+'
    &&& c != '<' && c != '=' && c != '>' && c != '[' && c != ']'
}

/// Whether a text goes into a query string as it is.
pub open spec fn query_safe(text: Seq<char>) -> bool {
    forall|i: int| 0 <= i < text.len() ==> is_query_safe(#[trigger] text[i])
}

/// Whether the value of every option goes into a query as it is.
pub open spec fn all_plain(params: Seq<Param>) -> bool {
    forall|i: int| 0 <= i < params.len() ==> (#[trigger] params[i]).is_plain()
}

/// The options of a list as name, `=` and value, in order.
pub open spec fn plain_pairs(params: Seq<Param>) -> Seq<Seq<char>> {
    params.map_values(|param: Param| param.plain_pair())
}

/// The query for a list of options, with nothing escaped.
pub open spec fn plain_query(params: Seq<Param>) -> Seq<char> {
    join(plain_pairs(params), "&"@)
}

/// Texts that go into a query as they are still do when they are joined by
/// a separator that does.
pub proof fn lemma_join_is_safe(parts: Seq<Seq<char>>, separator: Seq<char>)
    requires
        forall|i: int| 0 <= i < parts.len() ==> query_safe(#[trigger] parts[i]),
        query_safe(separator),
    ensures
        query_safe(join(parts, separator)),
    decreases parts.len(),
{
    if parts.len() > 1 {
        lemma_join_is_safe(parts.drop_last(), separator);
    }
}

/// The name of every part of an entry goes into a query as it is.
pub proof fn lemma_field_names_are_safe(field: Field)
    ensures
        query_safe(field.spec_as_str()),
{
    reveal_strlit("definitions");
    reveal_strlit("domains");
    reveal_strlit("etymologies");
    reveal_strlit("examples");
    reveal_strlit("regions");
    reveal_strlit("registers");
    reveal_strlit("variantForms");
    reveal_strlit("pronunciations");
}

/// An option whose tokens go into a query as they are is plain: the commas
/// between them need no escaping. A selection of parts always is.
pub proof fn lemma_safe_tokens_are_plain(param: Param)
    requires
        param is Fields || forall|i: int|
            0 <= i < param.spec_tokens().len() ==> query_safe(#[trigger] param.spec_tokens()[i]),
    ensures
        param.is_plain(),
{
    reveal_strlit(",");
    if let Param::Fields(fields) = param {
        assert forall|i: int| 0 <= i < param.spec_tokens().len() implies query_safe(
            #[trigger] param.spec_tokens()[i],
        ) by {
            lemma_field_names_are_safe(fields@[i]);
        }
    }
    lemma_join_is_safe(param.spec_tokens(), ","@);
}

/// The name of every kind of option goes into a query as it is.
pub proof fn lemma_keys_are_safe(param: Param)
    ensures
        query_safe(param.spec_key()),
{
    reveal_strlit("fields");
    reveal_strlit("grammaticalFeatures");
    reveal_strlit("lexicalCategory");
    reveal_strlit("domains");
    reveal_strlit("registers");
    reveal_strlit("strictMatch");
}

/// The options of a list as they stand in a query, in order.
pub open spec fn spec_pairs(params: Seq<Param>) -> Seq<Seq<char>> {
    params.map_values(|param: Param| param.spec_pair())
}

/// The query for a list of options.
pub open spec fn spec_query(params: Seq<Param>) -> Seq<char> {
    join(spec_pairs(params), "&"@)
}

/// The names of the parts with commas between them.
pub fn joined_fields(fields: &[Field]) -> (joined: String)
    ensures
        joined@ == join(field_names(fields@), ","@),
{
    let mut names: Vec<&'static str> = Vec::new();
    let mut i: usize = 0;
    while i < fields.len()
        invariant
            i <= fields.len(),
            str_views(names@) == field_names(fields@).take(i as int),
        decreases fields.len() - i,
    {
        let ghost before = names@;
        names.push(fields[i].as_str());
        assert(str_views(names@) =~= field_names(fields@).take(i + 1)) by {
            assert(str_views(before).len() == i);
            assert forall|k: int| 0 <= k < i implies str_views(names@)[k] == field_names(
                fields@,
            )[k] by {
                assert(str_views(before)[k] == field_names(fields@).take(i as int)[k]);
            }
        }
        i += 1;
    }
    assert(field_names(fields@).take(fields.len() as int) =~= field_names(fields@));
    joined_tokens(names.as_slice())
}

/// The tokens with commas between them.
pub fn joined_tokens(text: &[&str]) -> (joined: String)
    ensures
        joined@ == join(str_views(text@), ","@),
{
    join_strs(text, ",")
}

/// Options as they stand in a query, put together with `&` between each two.
pub fn join_pairs(pairs: &Vec<String>) -> (query: String)
    ensures
        query@ == join(views(pairs@), "&"@),
{
    join_strings(pairs, "&")
}

/// A name and a value as `serde_qs` writes them into a query string.
pub uninterp spec fn qs_pair_text(key: Seq<char>, value: Seq<char>) -> Seq<char>;

/// `serde_qs::to_string` on a map whose one entry is `key` and `value`: the
/// key, `=` and the value, each escaped as a query string asks. The text is
/// a function of the two alone, named [`qs_pair_text`]. In its default
/// encoding, which is the one used here, `serde_qs` escapes a space, every
/// character that is not visible ASCII, and the ten characters that
/// [`is_query_safe`] leaves out; where key and value hold none of these, the
/// text is the key, `=` and the value as they are. Writing one string under
/// one string into memory does not fail in `serde_qs`.
#[verifier::external_body]
fn qs_pair(key: &str, value: &str) -> (pair: String)
    ensures
        pair@ == qs_pair_text(key@, value@),
        query_safe(key@) && query_safe(value@) ==> pair@ == key@ + "="@ + value@,
{
    let mut entry = std::collections::BTreeMap::new();
    entry.insert(key, value);
    serde_qs::to_string(&entry).unwrap_or_default()
}

/// A query is written in the order its options are given: the query of two
/// lists one after the other is the query of the first, `&`, and the query of
/// the second.
pub proof fn lemma_serialize_preserves_order(first: Seq<Param>, second: Seq<Param>)
    requires
        first.len() > 0,
        second.len() > 0,
    ensures
        spec_query(first + second) == spec_query(first) + "&"@ + spec_query(second),
{
    assert(spec_pairs(first + second) =~= spec_pairs(first) + spec_pairs(second));
    lemma_join_concat(spec_pairs(first), spec_pairs(second), "&"@);
}

impl Client {
    /// The URI of the entries of `word_id` in this client's language,
    /// narrowed by `params`.
    pub open spec fn spec_entries_uri(&self, word_id: Seq<char>, params: Seq<Param>) -> Seq<char> {
        Endpoint::Entries.spec_as_str() + "/"@ + self.spec_source_language().spec_code() + "/"@
            + word_id + "?"@ + spec_query(params)
    }

    /// The request for the entries of a headword: definitions,
    /// pronunciations, example sentences, grammatical information, word
    /// origins. Refused, with nothing to send, where the client's language
    /// has no entries.
    ///
    /// `word_id` should be a dictionary headword (crab, not crabs). It goes
    /// into the URI as it is.
    pub fn entries(&self, word_id: &str, params: &[Param]) -> (request: Result<Request, Error>)
        ensures
            match request {
                Ok(request) => {
                    &&& self.spec_source_language().spec_entries_api()
                    &&& self.requests(self.spec_entries_uri(word_id@, params@), request)
                    &&& all_plain(params@) ==> spec_query(params@) == plain_query(params@)
                },
                Err(Error::UnsupportedApi { lang, api }) => {
                    &&& !self.spec_source_language().spec_entries_api()
                    &&& lang == self.spec_source_language()
                    &&& api@ == "entries"@
                },
                Err(_) => false,
            },
    {
        if !self.source_language.entries_api() {
            return Err(
                Error::UnsupportedApi { lang: self.source_language, api: "entries".to_owned() },
            );
        }
        let mut path = Endpoint::Entries.as_str().to_owned();
        path.append("/");
        path.append(self.source_language.code());
        path.append("/");
        path.append(word_id);
        path.append("?");
        let query = Param::serialize(params);
        path.append(query.as_str());
        Ok(self.get_request(path.as_str()))
    }

    /// What a reply to [`Client::entries`] amounts to.
    pub fn entries_result(reply: Reply) -> (result: Result<RetrieveEntry, Error>)
        requires
            reply.follows_protocol(),
        ensures
            reply matches Reply::Failed(reason) ==> result matches Err(Error::SurfError(cause))
                && cause@ == reason@,
            reply matches Reply::Answered { status, x_request_id, body } ==> {
                if is_api_error_status(status) {
                    result is Err && classified(
                        status,
                        json_document(body@),
                        x_request_id,
                        Err(result->Err_0),
                    )
                } else {
                    entries_read(json_document(body@), result)
                }
            },
    {
        match reply {
            Reply::Failed(reason) => Err(Error::SurfError(reason)),
            Reply::Answered { status, x_request_id, body } => {
                match Client::handle_api_error(status, body.as_slice(), x_request_id) {
                    Err(error) => Err(error),
                    Ok(()) => Client::read_entries(parse(body.as_slice())),
                }
            },
        }
    }

    /// Reads the entries out of what a body was read as (`None` where it is
    /// no JSON text).
    pub fn read_entries(document: Option<Json>) -> (result: Result<RetrieveEntry, Error>)
        ensures
            entries_read(document, result),
    {
        match document {
            Some(document) => match RetrieveEntry::from_json(document) {
                Ok(entries) => Ok(entries),
                Err(_) => Err(Error::DeserializationError),
            },
            None => Err(Error::DeserializationError),
        }
    }
}

/// Whether `result` is what a body read as `document` amounts to: the
/// entries it holds, or a deserialization error where it holds none.
pub open spec fn entries_read(document: Option<Json>, result: Result<RetrieveEntry, Error>)
    -> bool {
    if document is Some && RetrieveEntry::decodable(document->0) {
        result matches Ok(entries) && RetrieveEntry::decodes(document->0, entries)
    } else {
        result matches Err(Error::DeserializationError)
    }
}

} // verus!
