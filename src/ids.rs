use vstd::prelude::*;
use crate::text::push_char;

verus! {

/// Length of the text form of a record id.
pub const ID_TEXT_LEN: usize = 24;

pub open spec fn is_hex_char(c: char) -> bool {
    ('0' <= c && c <= '9') || ('a' <= c && c <= 'f') || ('A' <= c && c <= 'F')
}

pub open spec fn lower_hex_char(c: char) -> char {
    if 'A' <= c && c <= 'F' {
        ((c as u32) + 32) as char
    } else {
        c
    }
}

/// `s` is the text of a record id: 24 hexadecimal digits.
pub open spec fn is_id_text(s: Seq<char>) -> bool {
    s.len() == ID_TEXT_LEN && forall|i: int| 0 <= i < s.len() ==> is_hex_char(#[trigger] s[i])
}

/// The canonical (lower-case) form of an id text.
pub open spec fn canonical_id(s: Seq<char>) -> Seq<char> {
    s.map_values(|c: char| lower_hex_char(c))
}

/// The id that `s` names, if `s` is an id text at all.
pub open spec fn parsed_id(s: Seq<char>) -> Option<Seq<char>> {
    if is_id_text(s) {
        Some(canonical_id(s))
    } else {
        None
    }
}

/// The identifier of a stored record: twelve bytes, held as their 24
/// lower-case hexadecimal digits.
#[derive(Debug)]
pub struct ObjectId {
    hex: String,
}

impl View for ObjectId {
    type V = Seq<char>;

    closed spec fn view(&self) -> Seq<char> {
        self.hex@
    }
}

impl PartialEq for ObjectId {
    fn eq(&self, other: &ObjectId) -> (r: bool) {
        self.hex == other.hex
    }
}

impl vstd::std_specs::cmp::PartialEqSpecImpl for ObjectId {
    open spec fn obeys_eq_spec() -> bool {
        true
    }

    open spec fn eq_spec(&self, other: &ObjectId) -> bool {
        self@ == other@
    }
}

impl ObjectId {
    /// Parses an id text; upper-case digits are accepted and normalised.
    pub fn parse_str(s: &str) -> (r: Option<ObjectId>)
        ensures
            match parsed_id(s@) {
                Some(v) => r matches Some(id) && id@ == v,
                None => r is None,
            },
    {
        let n = s.unicode_len();
        if n != ID_TEXT_LEN {
            return None;
        }
        let mut hex = String::new();
        let mut i: usize = 0;
        while i < n
            invariant
                n == s@.len(),
                i <= n,
                hex@ == canonical_id(s@.subrange(0, i as int)),
                forall|j: int| 0 <= j < i ==> is_hex_char(#[trigger] s@[j]),
            decreases n - i,
        {
            let c = s.get_char(i);
            if !(('0' <= c && c <= '9') || ('a' <= c && c <= 'f') || ('A' <= c && c <= 'F')) {
                return None;
            }
            let d = if 'A' <= c && c <= 'F' {
                proof {
                    assert((c as u32) + 32 <= 0x7f);
                }
                char_from_ascii(((c as u32) + 32) as u8)
            } else {
                c
            };
            proof {
                assert(d == lower_hex_char(c));
                assert(s@.subrange(0, i + 1) == s@.subrange(0, i as int).push(c));
            }
            push_char(&mut hex, d);
            i = i + 1;
        }
        proof {
            assert(s@.subrange(0, n as int) == s@);
        }
        Some(ObjectId { hex })
    }

    /// The canonical text of this id.
    pub fn to_hex(&self) -> (r: String)
        ensures
            r@ == self@,
    {
        self.hex.clone()
    }

    /// A second handle on the same id.
    pub fn duplicate(&self) -> (r: ObjectId)
        ensures
            r@ == self@,
    {
        ObjectId { hex: self.hex.clone() }
    }
}

/// Relies on `mongodb::bson::oid::ObjectId::new`: a fresh id, as its 24
/// lower-case hexadecimal digits.
#[verifier::external_body]
fn fresh_id_text() -> (r: String)
    ensures
        parsed_id(r@) is Some,
{
    mongodb::bson::oid::ObjectId::new().to_hex()
}

impl ObjectId {
    /// A freshly generated id.
    pub fn generate() -> (r: ObjectId)
        ensures
            parsed_id(r@) is Some,
    {
        let text = fresh_id_text();
        match ObjectId::parse_str(text.as_str()) {
            Some(id) => {
                proof {
                    let v = canonical_id(text@);
                    assert(is_id_text(v)) by {
                        assert forall|i: int| 0 <= i < v.len() implies is_hex_char(#[trigger] v[i]) by {
                            assert(is_hex_char(text@[i]));
                        }
                    }
                    assert(canonical_id(v) =~= v) by {
                        assert forall|i: int| 0 <= i < v.len() implies #[trigger] canonical_id(v)[i] == v[i] by {
                            assert(is_hex_char(text@[i]));
                        }
                    }
                }
                id
            },
            None => ObjectId { hex: text },
        }
    }
}

fn char_from_ascii(b: u8) -> (c: char)
    requires
        b < 0x80,
    ensures
        c as u32 == b as u32,
{
    b as char
}

} // verus!
