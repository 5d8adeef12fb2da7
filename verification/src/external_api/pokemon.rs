use vstd::prelude::*;

verus! {

/// The `language` block of a flavour text entry.
pub struct Language {
    pub name: String,
}

/// One flavour text of a Pokédex species entry, in one language.
pub struct FlavourTextEntry {
    pub flavor_text: String,
    pub language: Language,
}

/// The part of a Pokédex species entry that the service reads.
pub struct PokedexEntry {
    pub id: i32,
    pub name: String,
    pub flavor_text_entries: Vec<FlavourTextEntry>,
}

/// A Pokémon with its plain (English) description.
pub struct Pokemon {
    pub id: i32,
    pub name: String,
    pub description: String,
}

/// Why no Pokémon could be had from the Pokédex.
#[derive(Debug, Clone, Copy, PartialEq, Eq, Structural)]
pub enum PokeError {
    NotFound,
    NoFlavourText,
    APIError,
}

/// The text of each error.
pub open spec fn poke_error_message(e: PokeError) -> Seq<char> {
    match e {
        PokeError::NotFound => "Not Found"@,
        PokeError::NoFlavourText => "No Flavour Text"@,
        PokeError::APIError => "APIError"@,
    }
}

impl PokeError {
    /// The error's text.
    pub fn message(&self) -> (r: String)
        ensures
            r@ == poke_error_message(*self),
    {
        match self {
            PokeError::NotFound => String::from_str("Not Found"),
            PokeError::NoFlavourText => String::from_str("No Flavour Text"),
            PokeError::APIError => String::from_str("APIError"),
        }
    }
}

/// The HTTP status with which the Pokédex says that a species does not exist.
pub const NOT_FOUND_STATUS: u16 = 404;

/// The entry is written in English.
pub open spec fn is_english(entry: FlavourTextEntry) -> bool {
    entry.language.name@ == "en"@
}

/// `i` is the position of the first English entry of `entries`.
pub open spec fn is_first_english(entries: Seq<FlavourTextEntry>, i: int) -> bool {
    &&& 0 <= i < entries.len()
    &&& is_english(entries[i])
    &&& forall|j: int| 0 <= j < i ==> !is_english(#[trigger] entries[j])
}

/// Some entry of `entries` is written in English.
pub open spec fn has_english(entries: Seq<FlavourTextEntry>) -> bool {
    exists|i: int| 0 <= i < entries.len() && is_english(#[trigger] entries[i])
}

/// A form feed or a line feed becomes a space; any other character stays.
pub open spec fn clean_char(c: char) -> char {
    if c == '\u{c}' || c == '\n' {
        ' '
    } else {
        c
    }
}

/// The text with every form feed and line feed replaced by a space.
pub open spec fn cleaned(text: Seq<char>) -> Seq<char> {
    text.map_values(|c: char| clean_char(c))
}

/// What the Pokédex entry gives: its id and name, and the cleaned text of its
/// first English flavour text; or `NoFlavourText` where it has none.
pub open spec fn describes(entry: PokedexEntry, r: Result<Pokemon, PokeError>) -> bool {
    let entries = entry.flavor_text_entries@;
    match r {
        Ok(p) => {
            &&& p.id == entry.id
            &&& p.name@ == entry.name@
            &&& exists|i: int|
                is_first_english(entries, i) && p.description@ == cleaned(
                    #[trigger] entries[i].flavor_text@,
                )
        },
        Err(e) => e == PokeError::NoFlavourText && !has_english(entries),
    }
}

/// Appends one character to the string (std's `String::push`).
#[verifier::external_body]
fn push_char(s: &mut String, c: char)
    ensures
        final(s)@ == old(s)@.push(c),
{
    s.push(c);
}

/// The position of the first English flavour text, if there is one.
pub fn english_flavour_index(entries: &Vec<FlavourTextEntry>) -> (r: Option<usize>)
    ensures
        r matches Some(i) ==> is_first_english(entries@, i as int),
        r is None <==> !has_english(entries@),
        r matches Some(i) ==> i < entries@.len() && entries@[i as int].language.name@ == "en"@,
        r matches Some(i) ==> forall|j: int|
            0 <= j < i ==> (#[trigger] entries@[j]).language.name@ != "en"@,
        r is None <==> forall|j: int|
            0 <= j < entries@.len() ==> (#[trigger] entries@[j]).language.name@ != "en"@,
{
    let en = String::from_str("en");
    let mut i: usize = 0;
    while i < entries.len()
        invariant
            i <= entries.len(),
            en@ == "en"@,
            forall|j: int| 0 <= j < i ==> !is_english(#[trigger] entries@[j]),
        decreases entries.len() - i,
    {
        if entries[i].language.name == en {
            return Some(i);
        }
        i += 1;
    }
    None
}

/// Replaces each form feed and line feed of the text by a space.
pub fn clean_flavour_text(text: &str) -> (r: String)
    ensures
        r@ == cleaned(text@),
        r@.len() == text@.len(),
        forall|i: int|
            0 <= i < text@.len() ==> #[trigger] r@[i] == if text@[i] == '\u{c}' || text@[i]
                == '\n' {
                ' '
            } else {
                text@[i]
            },
{
    broadcast use vstd::string::group_string_axioms;

    let mut out = String::new();
    for c in it: text.chars()
        invariant
            it.seq() == text@,
            out@ == cleaned(text@.take(it.index() as int)),
    {
        let d = if c == '\u{c}' || c == '\n' {
            ' '
        } else {
            c
        };
        proof {
            assert(text@.take(it.index() + 1) == text@.take(it.index() as int).push(c));
        }
        push_char(&mut out, d);
    }
    proof {
        assert(text@.take(text@.len() as int) == text@);
    }
    out
}

/// The Pokémon that the Pokédex entry describes: its id and name, with the
/// first English flavour text, form feeds and line feeds made spaces, as its
/// description. `NoFlavourText` where no flavour text is in English.
pub fn pokemon_from_entry(entry: PokedexEntry) -> (r: Result<Pokemon, PokeError>)
    ensures
        describes(entry, r),
{
    let PokedexEntry { id, name, flavor_text_entries } = entry;
    match english_flavour_index(&flavor_text_entries) {
        None => Err(PokeError::NoFlavourText),
        Some(i) => {
            let description = clean_flavour_text(flavor_text_entries[i].flavor_text.as_str());
            Ok(Pokemon { id, name, description })
        },
    }
}

/// What a reply of the Pokédex gives. `status` is the reply's HTTP status,
/// `None` where no reply came; `body` is the reply's body read as a species
/// entry, `None` where it could not be read as one.
pub fn pokemon_from_reply(status: Option<u16>, body: Option<PokedexEntry>) -> (r: Result<
    Pokemon,
    PokeError,
>)
    ensures
        match status {
            None => r == Err::<Pokemon, PokeError>(PokeError::APIError),
            Some(s) => if s == NOT_FOUND_STATUS {
                r == Err::<Pokemon, PokeError>(PokeError::NotFound)
            } else {
                match body {
                    None => r == Err::<Pokemon, PokeError>(PokeError::APIError),
                    Some(entry) => describes(entry, r),
                }
            },
        },
{
    match status {
        None => Err(PokeError::APIError),
        Some(s) => {
            if s == NOT_FOUND_STATUS {
                Err(PokeError::NotFound)
            } else {
                match body {
                    None => Err(PokeError::APIError),
                    Some(entry) => pokemon_from_entry(entry),
                }
            }
        },
    }
}

/// Cleaning changes exactly the form feeds and line feeds, each into a space:
/// every other character stays where it is.
pub proof fn lemma_cleaning_keeps_other_chars(text: Seq<char>)
    ensures
        cleaned(text).len() == text.len(),
        forall|i: int|
            0 <= i < text.len() && text[i] != '\u{c}' && text[i] != '\n' ==> #[trigger] cleaned(
                text,
            )[i] == text[i],
        forall|i: int|
            0 <= i < text.len() && (text[i] == '\u{c}' || text[i] == '\n') ==> #[trigger] cleaned(
                text,
            )[i] == ' ',
        cleaned(text) == text <==> forall|i: int|
            0 <= i < text.len() ==> text[i] != '\u{c}' && text[i] != '\n',
{
    if cleaned(text) == text {
        assert forall|i: int| 0 <= i < text.len() implies text[i] != '\u{c}' && text[i] != '\n' by {
            assert(cleaned(text)[i] == text[i]);
        }
    }
    if forall|i: int| 0 <= i < text.len() ==> text[i] != '\u{c}' && text[i] != '\n' {
        assert(cleaned(text) =~= text);
    }
}

/// The first English flavour text is the first entry whose language is named
/// exactly "en"; there is one exactly when some entry's language is "en".
pub proof fn lemma_english_means_named_en(entries: Seq<FlavourTextEntry>, i: int)
    ensures
        is_first_english(entries, i) <==> (0 <= i < entries.len()
            && entries[i].language.name@ == "en"@ && forall|j: int|
            0 <= j < i ==> (#[trigger] entries[j]).language.name@ != "en"@),
        has_english(entries) <==> exists|j: int|
            0 <= j < entries.len() && (#[trigger] entries[j]).language.name@ == "en"@,
{
}

/// The Pokémon read from an entry has the entry's id and name, and as its
/// description the text of the first flavour text whose language is named
/// "en", each form feed and line feed made a space and every other character
/// kept; the only failure is `NoFlavourText`, exactly when no flavour text is
/// named "en".
pub proof fn lemma_pokemon_is_entry_with_first_english_text(
    entry: PokedexEntry,
    r: Result<Pokemon, PokeError>,
)
    requires
        describes(entry, r),
    ensures
        r matches Ok(p) ==> p.id == entry.id && p.name@ == entry.name@ && exists|i: int|
            0 <= i < entry.flavor_text_entries@.len()
                && entry.flavor_text_entries@[i].language.name@ == "en"@ && (forall|j: int|
                0 <= j < i ==> (#[trigger] entry.flavor_text_entries@[j]).language.name@
                    != "en"@) && p.description@.len()
                == entry.flavor_text_entries@[i].flavor_text@.len() && forall|k: int|
                0 <= k < p.description@.len() ==> #[trigger] p.description@[k] == if (
                entry.flavor_text_entries@[i].flavor_text@[k] == '\u{c}'
                    || entry.flavor_text_entries@[i].flavor_text@[k] == '\n') {
                    ' '
                } else {
                    entry.flavor_text_entries@[i].flavor_text@[k]
                },
        r is Err ==> (r == Err::<Pokemon, PokeError>(PokeError::NoFlavourText) && forall|j: int|
            0 <= j < entry.flavor_text_entries@.len() ==> (
            #[trigger] entry.flavor_text_entries@[j]).language.name@ != "en"@),
{
}

/// The texts of the Pokédex errors.
pub proof fn lemma_poke_error_texts()
    ensures
        poke_error_message(PokeError::NotFound) == "Not Found"@,
        poke_error_message(PokeError::NoFlavourText) == "No Flavour Text"@,
        poke_error_message(PokeError::APIError) == "APIError"@,
{
}

/// A cleaned text is as long as the text, holds no form feed and no line
/// feed, and cleaning it again changes nothing.
pub proof fn lemma_cleaned_is_one_line(text: Seq<char>)
    ensures
        cleaned(text).len() == text.len(),
        forall|i: int|
            0 <= i < text.len() ==> #[trigger] cleaned(text)[i] != '\u{c}' && cleaned(text)[i]
                != '\n',
        cleaned(cleaned(text)) == cleaned(text),
{
    assert(cleaned(cleaned(text)) =~= cleaned(text));
}

} // verus!
