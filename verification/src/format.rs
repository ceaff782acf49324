//! The output formats and the names by which the command line selects them.

use vstd::prelude::*;

verus! {

/// The shape in which the greeting is emitted.
#[derive(Clone, Copy, Debug, PartialEq, Eq, Structural)]
pub enum Format {
    Text,
    Json,
    Csv,
}

/// The lower-case form of an ASCII capital letter; any other character is
/// itself.
pub open spec fn ascii_lower(c: char) -> char {
    if 'A' <= c <= 'Z' {
        ((c as u8 + 32) as u8) as char
    } else {
        c
    }
}

/// `text` with every ASCII capital letter replaced by its lower-case form.
pub open spec fn lowered(text: Seq<char>) -> Seq<char> {
    text.map_values(|c: char| ascii_lower(c))
}

impl Format {
    /// The name that selects this format on the command line.
    pub open spec fn spec_name(self) -> Seq<char> {
        match self {
            Format::Text => "text"@,
            Format::Json => "json"@,
            Format::Csv => "csv"@,
        }
    }

    /// The format that `value` selects: the one whose name `value` spells,
    /// ASCII case aside. `None` when it spells no format's name.
    pub open spec fn named(value: Seq<char>) -> Option<Format> {
        if lowered(value) == Format::Text.spec_name() {
            Some(Format::Text)
        } else if lowered(value) == Format::Json.spec_name() {
            Some(Format::Json)
        } else if lowered(value) == Format::Csv.spec_name() {
            Some(Format::Csv)
        } else {
            None
        }
    }

    /// The name that selects this format on the command line.
    pub fn name(self) -> (r: &'static str)
        ensures
            r@ == self.spec_name(),
    {
        match self {
            Format::Text => "text",
            Format::Json => "json",
            Format::Csv => "csv",
        }
    }

    /// Reads a `--format` value. The three names are recognized in any mix of
    /// upper and lower case; every other value is refused.
    pub fn from_name(value: &str) -> (r: Option<Format>)
        ensures
            r == Format::named(value@),
    {
        if spells(value, Format::Text.name()) {
            Some(Format::Text)
        } else if spells(value, Format::Json.name()) {
            Some(Format::Json)
        } else if spells(value, Format::Csv.name()) {
            Some(Format::Csv)
        } else {
            None
        }
    }
}

impl Default for Format {
    /// The format of a run that names none: plain text.
    fn default() -> (r: Format)
        ensures
            r == Format::Text,
    {
        Format::Text
    }
}

/// The lower-case form of an ASCII capital letter; any other character is
/// handed back as it is.
fn to_ascii_lower(c: char) -> (r: char)
    ensures
        r == ascii_lower(c),
{
    if 'A' <= c && c <= 'Z' {
        ((c as u8) + 32) as char
    } else {
        c
    }
}

/// Whether `value`, lowered, is exactly `name`.
fn spells(value: &str, name: &str) -> (r: bool)
    ensures
        r == (lowered(value@) == name@),
{
    let n: usize = name.unicode_len();
    if value.unicode_len() != n {
        return false;
    }
    let mut i: usize = 0;
    while i < n
        invariant
            n == name@.len(),
            n == value@.len(),
            i <= n,
            forall|j: int| 0 <= j < i ==> lowered(value@)[j] == name@[j],
        decreases n - i,
    {
        if to_ascii_lower(value.get_char(i)) != name.get_char(i) {
            return false;
        }
        i += 1;
    }
    assert(lowered(value@) =~= name@);
    true
}

/// Every format is selected by its own name, and a value selects a format
/// only by spelling that format's name, ASCII case aside.
pub proof fn names_select_their_formats(format: Format, value: Seq<char>)
    ensures
        Format::named(format.spec_name()) == Some(format),
        Format::named(value) == Some(format) <==> lowered(value) == format.spec_name(),
{
    reveal_strlit("text");
    reveal_strlit("json");
    reveal_strlit("csv");
    assert(lowered("text"@) =~= "text"@);
    assert(lowered("json"@) =~= "json"@);
    assert(lowered("csv"@) =~= "csv"@);
    assert("text"@ != "json"@) by {
        assert("text"@[0] != "json"@[0]);
    }
}

} // verus!
