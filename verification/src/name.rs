//! Names of data sources and proxies.

use vstd::prelude::*;
use vstd::string::*;
use vstd::utf8::is_ascii_chars;

verus! {

/// A lowercase ASCII letter or a digit.
pub open spec fn is_name_edge(c: char) -> bool {
    ('a' <= c && c <= 'z') || ('0' <= c && c <= '9')
}

/// A character that may stand anywhere but at the ends of a name.
pub open spec fn is_name_char(c: char) -> bool {
    is_name_edge(c) || c == '-'
}

/// The text is not empty, holds only lowercase letters, digits and dashes,
/// and neither starts nor ends with a dash.
pub open spec fn is_valid_name(s: Seq<char>) -> bool {
    &&& s.len() > 0
    &&& forall|i: int| 0 <= i < s.len() ==> is_name_char(#[trigger] s[i])
    &&& is_name_edge(s[0])
    &&& is_name_edge(s[s.len() - 1])
}

/// Why a text is no name.
#[derive(Clone, Copy, Debug, PartialEq, Eq, Structural)]
pub enum InvalidName {
    /// The text is empty.
    Empty,
    /// The text holds something else than lowercase letters, digits and dashes.
    InvalidCharacters,
    /// The text starts or ends with a dash.
    DashAtEdge,
}

/// What `Name::new` answers for a text.
pub open spec fn name_check(s: Seq<char>) -> Result<(), InvalidName> {
    if s.len() == 0 {
        Err(InvalidName::Empty)
    } else if exists|i: int| 0 <= i < s.len() && !is_name_char(#[trigger] s[i]) {
        Err(InvalidName::InvalidCharacters)
    } else if !is_name_edge(s[0]) || !is_name_edge(s[s.len() - 1]) {
        Err(InvalidName::DashAtEdge)
    } else {
        Ok(())
    }
}

/// A validated name.
#[derive(Debug, PartialEq, Eq)]
pub struct Name {
    text: String,
}

impl View for Name {
    type V = Seq<char>;

    closed spec fn view(&self) -> Seq<char> {
        self.text@
    }
}

fn byte_is_name_edge(b: u8) -> (r: bool)
    ensures
        r == is_name_edge(b as char),
{
    (b >= 97 && b <= 122) || (b >= 48 && b <= 57)
}

impl Name {
    #[verifier::type_invariant]
    spec fn valid(self) -> bool {
        is_valid_name(self.text@)
    }

    /// Validates `text` and wraps it.
    pub fn new(text: String) -> (res: Result<Name, InvalidName>)
        ensures
            res is Ok <==> is_valid_name(text@),
            res matches Ok(n) ==> n@ == text@,
            res matches Err(e) ==> name_check(text@) == Err::<(), InvalidName>(e),
    {
        let s = text.as_str();
        if !s.is_ascii() {
            return Err(InvalidName::InvalidCharacters);
        }
        let bytes = s.as_bytes();
        proof {
            is_ascii_spec_bytes(s);
        }
        let n = bytes.len();
        if n == 0 {
            return Err(InvalidName::Empty);
        }
        let mut i: usize = 0;
        while i < n
            invariant
                0 <= i <= n,
                n == bytes@.len(),
                n == text@.len(),
                forall|k: int| 0 <= k < n ==> bytes@[k] == text@[k] as u8,
                is_ascii_chars(text@),
                forall|k: int| 0 <= k < i ==> is_name_char(#[trigger] text@[k]),
            decreases n - i,
        {
            let b = bytes[i];
            if !(byte_is_name_edge(b) || b == 45) {
                return Err(InvalidName::InvalidCharacters);
            }
            i = i + 1;
        }
        if !byte_is_name_edge(bytes[0]) || !byte_is_name_edge(bytes[n - 1]) {
            return Err(InvalidName::DashAtEdge);
        }
        Ok(Name { text })
    }

    /// The name as text.
    pub fn as_str(&self) -> (s: &str)
        ensures
            s@ == self@,
            is_valid_name(s@),
    {
        proof {
            use_type_invariant(self);
        }
        self.text.as_str()
    }
}

impl Clone for Name {
    fn clone(&self) -> (res: Name)
        ensures
            res@ == self@,
    {
        proof {
            use_type_invariant(self);
        }
        Name { text: self.text.clone() }
    }
}

} // verus!
