//! What a view needs to know about an HTML element kind.

use vstd::prelude::*;
use vstd::std_specs::iter::IteratorSpec;
use vstd::string::StringExecFns;

verus! {

/// What describes a kind of HTML element.
pub trait HtmlElementMetadata {
    /// The name of the element, such as `a`, `p`, `div`.
    fn name(&self) -> String;

    /// Whether the element is void, that is closes itself, as `<input>` and
    /// `<br>` do. Unless a kind says otherwise it is not.
    fn is_void(&self) -> (void: bool)
        default_ensures
            !void,
    {
        false
    }
}

/// The element kinds that come with the library.
#[non_exhaustive]
pub enum AnyElement {
    Div,
    P,
    Button,
    Input,
}

impl AnyElement {
    /// The tag name of each kind.
    pub open spec fn tag_name(self) -> Seq<char> {
        match self {
            AnyElement::Div => "div"@,
            AnyElement::P => "p"@,
            AnyElement::Button => "button"@,
            AnyElement::Input => "input"@,
        }
    }

    /// The tag name as a string.
    pub fn to_string(&self) -> (name: String)
        ensures
            name@ == self.tag_name(),
    {
        match self {
            AnyElement::Div => String::from_str("div"),
            AnyElement::P => String::from_str("p"),
            AnyElement::Button => String::from_str("button"),
            AnyElement::Input => String::from_str("input"),
        }
    }

    /// Only `input` is void.
    pub fn is_void(&self) -> (void: bool)
        ensures
            void == (self is Input),
    {
        matches!(self, AnyElement::Input)
    }
}

impl HtmlElementMetadata for AnyElement {
    fn name(&self) -> (name: String)
        ensures
            name@ == self.tag_name(),
    {
        self.to_string()
    }
}

/// Whether `c` is white space, as Unicode defines it.
pub open spec fn is_white_space(c: char) -> bool {
    let code = c as u32;
    ||| 0x09 <= code <= 0x0D
    ||| code == 0x20
    ||| code == 0x85
    ||| code == 0xA0
    ||| code == 0x1680
    ||| 0x2000 <= code <= 0x200A
    ||| code == 0x2028
    ||| code == 0x2029
    ||| code == 0x202F
    ||| code == 0x205F
    ||| code == 0x3000
}

/// Whether `c` is one of the 128 ASCII characters.
pub open spec fn is_ascii_char(c: char) -> bool {
    (c as u32) < 0x80
}

/// Whether `c` is one of the letters `a` to `z`.
pub open spec fn is_lowercase_letter(c: char) -> bool {
    0x61 <= c as u32 <= 0x7A
}

/// Whether a word begins at position `i` of `text`: the character there is
/// not white space, and it is the first or follows white space.
pub open spec fn word_begins(text: Seq<char>, i: int) -> bool {
    &&& !is_white_space(text[i])
    &&& i == 0 || is_white_space(text[i - 1])
}

/// The number of words that begin among the first `n` characters of `text`.
pub open spec fn words_within(text: Seq<char>, n: int) -> nat
    decreases n,
{
    if n <= 0 {
        0
    } else if word_begins(text, n - 1) {
        words_within(text, n - 1) + 1
    } else {
        words_within(text, n - 1)
    }
}

/// Whether `name` can be the name of an element: it is not empty, every
/// ASCII character in it is one of the letters `a` to `z` (so it holds no
/// capital, digit, hyphen or blank), and it is a single word, that is, other
/// white space stands at its ends at most.
pub open spec fn valid_tag_name(name: Seq<char>) -> bool {
    &&& name.len() > 0
    &&& forall|i: int|
        0 <= i < name.len() && is_ascii_char(#[trigger] name[i]) ==> is_lowercase_letter(name[i])
    &&& words_within(name, name.len() as int) == 1
}

fn white_space(c: char) -> (yes: bool)
    ensures
        yes == is_white_space(c),
{
    let code = c as u32;
    (0x09 <= code && code <= 0x0D) || code == 0x20 || code == 0x85 || code == 0xA0 || code
        == 0x1680 || (0x2000 <= code && code <= 0x200A) || code == 0x2028 || code == 0x2029 || code
        == 0x202F || code == 0x205F || code == 0x3000
}

/// Whether `name` can be the name of an element.
pub fn is_valid_tag_name(name: &str) -> (valid: bool)
    ensures
        valid == valid_tag_name(name@),
{
    let mut chars = name.chars();
    let mut words: u8 = 0;
    let mut letters = true;
    let mut after_space = true;
    let ghost mut seen: int = 0;
    proof {
        broadcast use vstd::string::axiom_spec_iter;

        assert(name@.skip(0) =~= name@);
    }
    loop
        invariant
            0 <= seen <= name@.len(),
            chars.remaining() == name@.skip(seen),
            words == if words_within(name@, seen) < 2 {
                words_within(name@, seen)
            } else {
                2
            },
            letters == forall|i: int|
                0 <= i < seen && is_ascii_char(#[trigger] name@[i]) ==> is_lowercase_letter(
                    name@[i],
                ),
            after_space == (seen == 0 || is_white_space(name@[seen - 1])),
        ensures
            seen == name@.len(),
        decreases name@.len() - seen,
    {
        let next = chars.next();
        proof {
            broadcast use vstd::string::next_postcondition;

            if seen < name@.len() {
                assert(name@.skip(seen)[0] == name@[seen]);
                assert(name@.skip(seen).drop_first() =~= name@.skip(seen + 1));
            }
        }
        match next {
            Some(c) => {
                let code = c as u32;
                let space = white_space(c);
                if code < 0x80 && !(0x61 <= code && code <= 0x7A) {
                    letters = false;
                }
                if !space && after_space && words < 2 {
                    words = words + 1;
                }
                after_space = space;
                proof {
                    seen = seen + 1;
                }
            },
            None => {
                break ;
            },
        }
    }
    !name.is_empty() && letters && words == 1
}

impl AnyElement {
    /// The names of the library's own elements are valid.
    pub proof fn tag_name_is_valid(self)
        ensures
            valid_tag_name(self.tag_name()),
    {
        reveal_strlit("div");
        reveal_strlit("p");
        reveal_strlit("button");
        reveal_strlit("input");
        reveal_with_fuel(words_within, 8);
    }
}

} // verus!
