use vstd::prelude::*;

verus! {

/// The symbol of the space character; the letters `a` to `z` are the symbols 0 to 25.
pub const SPACE_SYMBOL: usize = 26;

/// Whitespace that starts with a line break, or runs of two or more whitespace characters.
pub const WHITESPACE_RUNS: &'static str = "(\n\\s*)|(\\s+\\s+)";

/// Every character but a lowercase ASCII letter and the space.
pub const NON_ALPHABET: &'static str = "[^a-z ]";

/// The symbol a character stands for: its place in the alphabet for a lowercase ASCII
/// letter, `SPACE_SYMBOL` for the space, and none for anything else.
pub open spec fn symbol_spec(c: char) -> Option<usize> {
    if 'a' <= c && c <= 'z' {
        Some((c as u32 - 'a' as u32) as usize)
    } else if c == ' ' {
        Some(SPACE_SYMBOL)
    } else {
        None
    }
}

/// The symbols of a text, when each of its characters stands for one.
pub open spec fn encoded(text: Seq<char>) -> Option<Seq<usize>> {
    if forall|i: int| 0 <= i < text.len() ==> (#[trigger] symbol_spec(text[i])) is Some {
        Some(Seq::new(text.len(), |i: int| symbol_spec(text[i])->0))
    } else {
        None
    }
}

/// What `str::to_lowercase` makes of a text.
pub uninterp spec fn lower_of(s: Seq<char>) -> Seq<char>;

/// What `regex::Regex::replace_all` makes of `text` with the regular expression `pattern`
/// and the replacement `replacement`.
pub uninterp spec fn regex_replaced(pattern: Seq<char>, text: Seq<char>, replacement: Seq<char>) -> Seq<char>;

/// Whether `regex::Regex::new` accepts `pattern`.
pub uninterp spec fn regex_compiles(pattern: Seq<char>) -> bool;

/// Both patterns of the sanitizer compile.
pub open spec fn sanitizer_compiles() -> bool {
    regex_compiles(WHITESPACE_RUNS@) && regex_compiles(NON_ALPHABET@)
}

/// A raw text brought to the alphabet: lowercased, whitespace runs folded into one space,
/// and every other character outside the alphabet dropped.
pub open spec fn sanitized(raw: Seq<char>) -> Seq<char> {
    regex_replaced(NON_ALPHABET@, regex_replaced(WHITESPACE_RUNS@, lower_of(raw), " "@), ""@)
}

/// Relies on `str::to_lowercase`: its result depends on the characters of `s` alone.
#[verifier::external_body]
fn lowercase(s: &str) -> (r: String)
    ensures
        r@ == lower_of(s@),
{
    s.to_lowercase()
}

/// Relies on `regex::Regex::new` to compile `pattern`, and on `regex::Regex::replace_all`
/// to put `replacement` in place of each non-overlapping match in `text`. `None` exactly
/// when the pattern does not compile, which depends on the pattern alone.
#[verifier::external_body]
fn replace_matches(pattern: &str, text: &str, replacement: &str) -> (r: Option<String>)
    ensures
        r is Some <==> regex_compiles(pattern@),
        r matches Some(s) ==> s@ == regex_replaced(pattern@, text@, replacement@),
{
    match regex::Regex::new(pattern) {
        Ok(re) => Some(re.replace_all(text, replacement).into_owned()),
        Err(_) => None,
    }
}

/// The symbol `c` stands for.
pub fn symbol_of(c: char) -> (r: Option<usize>)
    ensures
        r == symbol_spec(c),
{
    if 'a' <= c && c <= 'z' {
        Some((c as u32 - 'a' as u32) as usize)
    } else if c == ' ' {
        Some(SPACE_SYMBOL)
    } else {
        None
    }
}

/// The character a symbol stands for: the inverse of `symbol_of`.
pub fn letter_of(symbol: usize) -> (r: Option<char>)
    ensures
        r is Some <==> symbol <= SPACE_SYMBOL,
        r matches Some(c) ==> symbol_spec(c) == Some(symbol),
{
    if symbol < SPACE_SYMBOL {
        let c = (symbol as u8 + 97u8) as char;
        Some(c)
    } else if symbol == SPACE_SYMBOL {
        Some(' ')
    } else {
        None
    }
}

/// The symbols of `text`, or `None` when one of its characters is outside the alphabet.
pub fn encode_text(text: &str) -> (r: Option<Vec<usize>>)
    ensures
        r matches Some(v) ==> encoded(text@) == Some(v@),
        r is None ==> encoded(text@) is None,
{
    let mut symbols: Vec<usize> = Vec::new();
    for c in it: text.chars()
        invariant
            it.seq() == text@,
            symbols@.len() == it.index(),
            forall|k: int| 0 <= k < it.index() ==> (#[trigger] symbol_spec(text@[k])) is Some
                && symbols@[k] == symbol_spec(text@[k])->0,
    {
        match symbol_of(c) {
            Some(s) => symbols.push(s),
            None => {
                return None;
            },
        }
    }
    assert(symbols@ =~= Seq::new(text@.len(), |k: int| symbol_spec(text@[k])->0));
    Some(symbols)
}

/// Brings a raw text to the alphabet; `None` exactly when a pattern does not compile.
pub fn sanitize(raw: &str) -> (r: Option<String>)
    ensures
        r is Some <==> sanitizer_compiles(),
        r matches Some(s) ==> s@ == sanitized(raw@),
{
    let lower = lowercase(raw);
    let folded = match replace_matches(WHITESPACE_RUNS, lower.as_str(), " ") {
        Some(s) => s,
        None => {
            return None;
        },
    };
    replace_matches(NON_ALPHABET, folded.as_str(), "")
}

/// The observation sequence of a raw text: its symbols once sanitized. `None` exactly when
/// a pattern does not compile or a character is left outside the alphabet.
pub fn observations_from_text(raw: &str) -> (r: Option<Vec<usize>>)
    ensures
        r is None <==> !sanitizer_compiles() || encoded(sanitized(raw@)) is None,
        r matches Some(v) ==> encoded(sanitized(raw@)) == Some(v@),
{
    match sanitize(raw) {
        Some(text) => encode_text(text.as_str()),
        None => None,
    }
}

} // verus!
