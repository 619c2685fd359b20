//! An answer laid out for reading: what to write, piece by piece, and in
//! which style. Writing it is left to whoever has a terminal.
//!
//! An answer is laid out whole or not at all: where something that has to be
//! shown is missing, that is the result, and no piece is given.

use crate::models::entries::{
    Entry, Example, HeadwordEntry, LexicalEntry, Pronunciation, RetrieveEntry, Sense,
};
use crate::text::{join, join_strings, str_eq, views};
use vstd::prelude::*;
use vstd::string::*;

verus! {

/// How a piece of text is to look.
#[derive(Debug, Clone, Copy, PartialEq, Eq, Structural)]
pub enum Style {
    Plain,
    Underline,
    Cyan,
    Magenta,
    Blue,
    Green,
    Bold,
}

/// A piece of text in one style. Line ends are part of the text.
#[derive(Debug)]
pub struct Span {
    pub style: Style,
    pub text: String,
}

/// What an answer has to hold to be shown, and did not.
#[derive(Debug, Clone, Copy, PartialEq, Eq, Structural)]
pub enum Missing {
    Results,
    Entries,
    Pronunciations,
    PhoneticSpelling,
    Dialects,
    Definitions,
}

impl Missing {
    /// What is missing, in words.
    pub open spec fn spec_message(self) -> Seq<char> {
        match self {
            Missing::Results => "no results returned"@,
            Missing::Entries => "no entries in lexical entry"@,
            Missing::Pronunciations => "no pronunciations"@,
            Missing::PhoneticSpelling => "no phonetic spelling"@,
            Missing::Dialects => "no dialects"@,
            Missing::Definitions => "no definitions"@,
        }
    }

    /// What is missing, in words.
    pub fn message(&self) -> (message: &'static str)
        ensures
            message@ == self.spec_message(),
    {
        match self {
            Missing::Results => "no results returned",
            Missing::Entries => "no entries in lexical entry",
            Missing::Pronunciations => "no pronunciations",
            Missing::PhoneticSpelling => "no phonetic spelling",
            Missing::Dialects => "no dialects",
            Missing::Definitions => "no definitions",
        }
    }
}

/// The decimal digit `d`, for `d` below ten.
pub open spec fn digit_text(d: nat) -> Seq<char> {
    if d == 0 {
        "0"@
    } else if d == 1 {
        "1"@
    } else if d == 2 {
        "2"@
    } else if d == 3 {
        "3"@
    } else if d == 4 {
        "4"@
    } else if d == 5 {
        "5"@
    } else if d == 6 {
        "6"@
    } else if d == 7 {
        "7"@
    } else if d == 8 {
        "8"@
    } else {
        "9"@
    }
}

/// A number as it is written in decimal, without leading zeros.
pub open spec fn decimal_text(n: nat) -> Seq<char>
    decreases n,
{
    if n < 10 {
        digit_text(n)
    } else {
        decimal_text(n / 10) + digit_text(n % 10)
    }
}

fn digit(d: usize) -> (text: &'static str)
    requires
        d < 10,
    ensures
        text@ == digit_text(d as nat),
{
    if d == 0 {
        "0"
    } else if d == 1 {
        "1"
    } else if d == 2 {
        "2"
    } else if d == 3 {
        "3"
    } else if d == 4 {
        "4"
    } else if d == 5 {
        "5"
    } else if d == 6 {
        "6"
    } else if d == 7 {
        "7"
    } else if d == 8 {
        "8"
    } else {
        "9"
    }
}

/// Writes a number in decimal.
pub fn decimal(n: usize) -> (text: String)
    ensures
        text@ == decimal_text(n as nat),
    decreases n,
{
    if n < 10 {
        digit(n).to_owned()
    } else {
        let mut text = decimal(n / 10);
        text.append(digit(n % 10));
        text
    }
}

/// The line for the text in place `j` under the sense in place `i`, both
/// counted from one when written.
pub open spec fn numbered(i: int, j: int, text: Seq<char>) -> Seq<char> {
    "\t"@ + decimal_text((i + 1) as nat) + "."@ + decimal_text((j + 1) as nat) + ") "@ + text
        + "\n"@
}

fn numbered_line(i: usize, j: usize, text: &str) -> (span: Span)
    requires
        i < usize::MAX,
        j < usize::MAX,
    ensures
        span.style == Style::Plain,
        span.text@ == numbered(i as int, j as int, text@),
{
    let mut line = "\t".to_owned();
    line.append(decimal(i + 1).as_str());
    line.append(".");
    line.append(decimal(j + 1).as_str());
    line.append(") ");
    line.append(text);
    line.append("\n");
    Span { style: Style::Plain, text: line }
}

/// A piece as contracts speak of it: its style and its characters.
pub type Piece = (Style, Seq<char>);

/// The pieces of a list of spans.
pub open spec fn shown(spans: Seq<Span>) -> Seq<Piece> {
    spans.map_values(|span: Span| (span.style, span.text@))
}

/// One layout after another: the first thing missing in either, or the
/// pieces of both.
pub open spec fn then(first: Result<Seq<Piece>, Missing>, second: Result<Seq<Piece>, Missing>)
    -> Result<Seq<Piece>, Missing> {
    match first {
        Err(missing) => Err(missing),
        Ok(pieces) => match second {
            Err(missing) => Err(missing),
            Ok(more) => Ok(pieces + more),
        },
    }
}

/// Whether `got` is the layout: the same pieces, or the same thing missing.
pub open spec fn agrees(layout: Result<Seq<Piece>, Missing>, got: Result<Vec<Span>, Missing>)
    -> bool {
    match layout {
        Ok(pieces) => got matches Ok(spans) && shown(spans@) == pieces,
        Err(missing) => got matches Err(found) && found == missing,
    }
}

/// Something that has a layout.
pub trait Render: Sized {
    /// The layout of `item`, which stands in place `i` of a list.
    spec fn layout(i: int, item: Self) -> Result<Seq<Piece>, Missing>;

    /// Lays `item` out.
    fn render(i: usize, item: &Self) -> (got: Result<Vec<Span>, Missing>)
        requires
            i < usize::MAX,
        ensures
            agrees(Self::layout(i as int, *item), got),
    ;
}

/// The layout of a list: the layouts of its items one after another, or the
/// first thing missing in any of them.
pub open spec fn layout_each<T: Render>(items: Seq<T>) -> Result<Seq<Piece>, Missing>
    decreases items.len(),
{
    if items.len() == 0 {
        Ok(Seq::empty())
    } else {
        then(layout_each(items.drop_last()), T::layout(items.len() - 1, items.last()))
    }
}

/// Once something is missing, nothing that follows changes that.
proof fn lemma_missing_stays<T: Render>(items: Seq<T>, k: int)
    requires
        0 <= k <= items.len(),
        layout_each(items.take(k)) is Err,
    ensures
        layout_each(items) == layout_each(items.take(k)),
    decreases items.len() - k,
{
    if k == items.len() {
        assert(items.take(k) =~= items);
    } else {
        assert(items.take(k + 1).drop_last() =~= items.take(k));
        lemma_missing_stays(items, k + 1);
    }
}

/// Lays a list out, item by item.
pub fn render_each<T: Render>(items: &Vec<T>) -> (got: Result<Vec<Span>, Missing>)
    ensures
        agrees(layout_each(items@), got),
{
    let mut spans: Vec<Span> = Vec::new();
    let mut i: usize = 0;
    while i < items.len()
        invariant
            i <= items.len(),
            layout_each(items@.take(i as int)) is Ok,
            layout_each(items@.take(i as int))->Ok_0 == shown(spans@),
        decreases items.len() - i,
    {
        assert(items@.take(i + 1).drop_last() =~= items@.take(i as int));
        match T::render(i, &items[i]) {
            Err(missing) => {
                proof {
                    lemma_missing_stays(items@, i + 1);
                }
                return Err(missing);
            },
            Ok(more) => {
                let ghost before = shown(spans@);
                let mut more = more;
                spans.append(&mut more);
                assert(shown(spans@) =~= before + T::layout(i as int, items[i as int])->Ok_0);
            },
        }
        i += 1;
    }
    assert(items@.take(items.len() as int) =~= items@);
    Ok(spans)
}

/// The lines for a list of texts under the sense in place `i`.
pub open spec fn numbered_each(i: int, texts: Seq<Seq<char>>) -> Seq<Piece> {
    Seq::new(texts.len(), |j: int| (Style::Plain, numbered(i, j, texts[j])))
}

/// The texts of a list of examples.
pub open spec fn example_texts(examples: Seq<Example>) -> Seq<Seq<char>> {
    examples.map_values(|example: Example| example.text@)
}

/// The lines for the examples of the sense in place `i`: none where it has
/// no examples.
pub open spec fn examples_of(i: int, sense: Sense) -> Seq<Piece> {
    match sense.examples {
        Some(examples) => numbered_each(i, example_texts(examples@)),
        None => Seq::empty(),
    }
}

/// The lines for the examples of a list of senses.
pub open spec fn examples_each(senses: Seq<Sense>) -> Seq<Piece>
    decreases senses.len(),
{
    if senses.len() == 0 {
        Seq::empty()
    } else {
        examples_each(senses.drop_last()) + examples_of(senses.len() - 1, senses.last())
    }
}

fn render_definitions(i: usize, definitions: &Vec<String>) -> (spans: Vec<Span>)
    requires
        i < usize::MAX,
    ensures
        shown(spans@) == numbered_each(i as int, views(definitions@)),
{
    let mut spans: Vec<Span> = Vec::new();
    let mut j: usize = 0;
    while j < definitions.len()
        invariant
            i < usize::MAX,
            j <= definitions.len(),
            spans.len() == j,
            forall|k: int|
                0 <= k < j ==> (#[trigger] spans[k]).style == Style::Plain && spans[k].text@
                    == numbered(i as int, k, definitions[k]@),
        decreases definitions.len() - j,
    {
        spans.push(numbered_line(i, j, definitions[j].as_str()));
        j += 1;
    }
    assert(shown(spans@) =~= numbered_each(i as int, views(definitions@)));
    spans
}

fn render_examples_of(i: usize, examples: &Vec<Example>) -> (spans: Vec<Span>)
    requires
        i < usize::MAX,
    ensures
        shown(spans@) == numbered_each(i as int, example_texts(examples@)),
{
    let mut spans: Vec<Span> = Vec::new();
    let mut j: usize = 0;
    while j < examples.len()
        invariant
            i < usize::MAX,
            j <= examples.len(),
            spans.len() == j,
            forall|k: int|
                0 <= k < j ==> (#[trigger] spans[k]).style == Style::Plain && spans[k].text@
                    == numbered(i as int, k, examples[k].text@),
        decreases examples.len() - j,
    {
        spans.push(numbered_line(i, j, examples[j].text.as_str()));
        j += 1;
    }
    assert(shown(spans@) =~= numbered_each(i as int, example_texts(examples@)));
    spans
}

/// Lays out the examples of a list of senses.
pub fn render_examples(senses: &Vec<Sense>) -> (spans: Vec<Span>)
    ensures
        shown(spans@) == examples_each(senses@),
{
    let mut spans: Vec<Span> = Vec::new();
    let mut i: usize = 0;
    while i < senses.len()
        invariant
            i <= senses.len(),
            shown(spans@) == examples_each(senses@.take(i as int)),
        decreases senses.len() - i,
    {
        assert(senses@.take(i + 1).drop_last() =~= senses@.take(i as int));
        let ghost before = shown(spans@);
        match &senses[i].examples {
            Some(examples) => {
                let mut more = render_examples_of(i, examples);
                spans.append(&mut more);
            },
            None => {},
        }
        assert(shown(spans@) =~= before + examples_of(i as int, senses[i as int]));
        i += 1;
    }
    assert(senses@.take(senses.len() as int) =~= senses@);
    spans
}

/// A sense is shown by its definitions, which it has to have.
impl Render for Sense {
    open spec fn layout(i: int, item: Self) -> Result<Seq<Piece>, Missing> {
        match item.definitions {
            Some(definitions) => Ok(numbered_each(i, views(definitions@))),
            None => Err(Missing::Definitions),
        }
    }

    fn render(i: usize, item: &Self) -> (got: Result<Vec<Span>, Missing>) {
        match &item.definitions {
            Some(definitions) => Ok(render_definitions(i, definitions)),
            None => Err(Missing::Definitions),
        }
    }
}

/// A pronunciation is shown by its spelling and the dialects it is used in;
/// it has to have both.
impl Render for Pronunciation {
    open spec fn layout(i: int, item: Self) -> Result<Seq<Piece>, Missing> {
        match (item.phonetic_spelling, item.dialects) {
            (None, _) => Err(Missing::PhoneticSpelling),
            (Some(_), None) => Err(Missing::Dialects),
            (Some(spelling), Some(dialects)) => Ok(
                seq![
                    (Style::Plain, "\t/"@),
                    (Style::Blue, spelling@),
                    (Style::Plain, "/, "@ + join(views(dialects@), ", "@) + "\n"@),
                ],
            ),
        }
    }

    fn render(i: usize, item: &Self) -> (got: Result<Vec<Span>, Missing>) {
        let spelling = match &item.phonetic_spelling {
            Some(spelling) => spelling,
            None => {
                return Err(Missing::PhoneticSpelling);
            },
        };
        let dialects = match &item.dialects {
            Some(dialects) => dialects,
            None => {
                return Err(Missing::Dialects);
            },
        };
        let mut rest = "/, ".to_owned();
        rest.append(join_strings(dialects, ", ").as_str());
        rest.append("\n");
        let mut spans: Vec<Span> = Vec::new();
        spans.push(Span { style: Style::Plain, text: "\t/".to_owned() });
        spans.push(Span { style: Style::Blue, text: spelling.clone() });
        spans.push(Span { style: Style::Plain, text: rest });
        assert(shown(spans@) =~= Self::layout(i as int, *item)->Ok_0);
        Ok(spans)
    }
}

/// The heading over the definitions of an entry.
pub open spec fn definitions_heading() -> Seq<Piece> {
    seq![(Style::Plain, "\t"@), (Style::Green, "Definitions:"@), (Style::Plain, "\n"@)]
}

/// The heading over the examples of an entry.
pub open spec fn examples_heading() -> Seq<Piece> {
    seq![(Style::Plain, "\t"@), (Style::Bold, "Examples:"@), (Style::Plain, "\n"@)]
}

/// The layout of the senses of an entry: the definitions of each under
/// their heading, then the examples of each under theirs.
pub open spec fn senses_layout(senses: Seq<Sense>) -> Result<Seq<Piece>, Missing> {
    then(
        then(Ok(definitions_heading()), layout_each(senses)),
        Ok(examples_heading() + examples_each(senses)),
    )
}

fn heading(style: Style, title: &str) -> (spans: Vec<Span>)
    ensures
        shown(spans@) == seq![(Style::Plain, "\t"@), (style, title@), (Style::Plain, "\n"@)],
{
    let mut spans: Vec<Span> = Vec::new();
    spans.push(Span { style: Style::Plain, text: "\t".to_owned() });
    spans.push(Span { style, text: title.to_owned() });
    spans.push(Span { style: Style::Plain, text: "\n".to_owned() });
    assert(shown(spans@) =~= seq![(Style::Plain, "\t"@), (style, title@), (Style::Plain, "\n"@)]);
    spans
}

/// Lays out the senses of an entry.
pub fn render_senses(senses: &Vec<Sense>) -> (got: Result<Vec<Span>, Missing>)
    ensures
        agrees(senses_layout(senses@), got),
{
    let mut spans = heading(Style::Green, "Definitions:");
    let mut definitions = render_each(senses)?;
    spans.append(&mut definitions);
    let mut examples_title = heading(Style::Bold, "Examples:");
    spans.append(&mut examples_title);
    let mut examples = render_examples(senses);
    spans.append(&mut examples);
    assert(shown(spans@) =~= senses_layout(senses@)->Ok_0);
    Ok(spans)
}

/// An entry is shown by its pronunciations, which it has to have, and then
/// its senses, where it has any.
impl Render for Entry {
    open spec fn layout(i: int, item: Self) -> Result<Seq<Piece>, Missing> {
        match item.pronunciations {
            None => Err(Missing::Pronunciations),
            Some(pronunciations) => then(
                layout_each(pronunciations@),
                match item.senses {
                    Some(senses) => senses_layout(senses@),
                    None => Ok(Seq::empty()),
                },
            ),
        }
    }

    fn render(i: usize, item: &Self) -> (got: Result<Vec<Span>, Missing>) {
        let pronunciations = match &item.pronunciations {
            Some(pronunciations) => pronunciations,
            None => {
                return Err(Missing::Pronunciations);
            },
        };
        let mut spans = render_each(pronunciations)?;
        let ghost before = shown(spans@);
        match &item.senses {
            Some(senses) => {
                let mut more = render_senses(senses)?;
                spans.append(&mut more);
                assert(shown(spans@) =~= before + senses_layout(senses@)->Ok_0);
            },
            None => {
                assert(shown(spans@) =~= before + Seq::<Piece>::empty());
            },
        }
        Ok(spans)
    }
}

/// The style in which a lexical category is written.
pub open spec fn category_style(id: Seq<char>) -> Style {
    if id == "noun"@ {
        Style::Cyan
    } else if id == "verb"@ {
        Style::Magenta
    } else {
        Style::Plain
    }
}

/// What stands over the entries of a lexical entry: its text and its
/// category, and the title of what follows.
pub open spec fn lexical_heading(item: LexicalEntry) -> Seq<Piece> {
    seq![
        (Style::Underline, item.text@),
        (Style::Plain, ", "@),
        (category_style(item.lexical_category.id@), item.lexical_category.text@),
        (Style::Plain, "\nPronunciations:\n"@),
    ]
}

/// A lexical entry is shown by its heading and its entries, which it has to
/// have.
impl Render for LexicalEntry {
    open spec fn layout(i: int, item: Self) -> Result<Seq<Piece>, Missing> {
        match item.entries {
            None => Err(Missing::Entries),
            Some(entries) => then(Ok(lexical_heading(item)), layout_each(entries@)),
        }
    }

    fn render(i: usize, item: &Self) -> (got: Result<Vec<Span>, Missing>) {
        let entries = match &item.entries {
            Some(entries) => entries,
            None => {
                return Err(Missing::Entries);
            },
        };
        let style = if str_eq(item.lexical_category.id.as_str(), "noun") {
            Style::Cyan
        } else if str_eq(item.lexical_category.id.as_str(), "verb") {
            Style::Magenta
        } else {
            Style::Plain
        };
        let mut spans: Vec<Span> = Vec::new();
        spans.push(Span { style: Style::Underline, text: item.text.clone() });
        spans.push(Span { style: Style::Plain, text: ", ".to_owned() });
        spans.push(Span { style, text: item.lexical_category.text.clone() });
        spans.push(Span { style: Style::Plain, text: "\nPronunciations:\n".to_owned() });
        assert(shown(spans@) =~= lexical_heading(*item));
        let mut more = render_each(entries)?;
        spans.append(&mut more);
        assert(shown(spans@) =~= lexical_heading(*item) + layout_each(entries@)->Ok_0);
        Ok(spans)
    }
}

/// A headword is shown by its lexical entries.
impl Render for HeadwordEntry {
    open spec fn layout(i: int, item: Self) -> Result<Seq<Piece>, Missing> {
        layout_each(item.lexical_entries@)
    }

    fn render(i: usize, item: &Self) -> (got: Result<Vec<Span>, Missing>) {
        render_each(&item.lexical_entries)
    }
}

/// The layout of an answer: its headwords one after another. It has to have
/// results, though they may be none.
pub open spec fn answer_layout(answer: RetrieveEntry) -> Result<Seq<Piece>, Missing> {
    match answer.results {
        Some(results) => layout_each(results@),
        None => Err(Missing::Results),
    }
}

/// Lays an answer out.
pub fn render(answer: &RetrieveEntry) -> (got: Result<Vec<Span>, Missing>)
    ensures
        agrees(answer_layout(*answer), got),
{
    match &answer.results {
        Some(results) => render_each(results),
        None => Err(Missing::Results),
    }
}

} // verus!
