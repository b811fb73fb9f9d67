//! The raw bearer token and its outer shape: three base64url segments
//! separated by dots.

use vstd::prelude::*;
use vstd::string::*;

verus! {

/// A bearer token exactly as it was received, before any check.
#[derive(Debug, Clone)]
pub struct Token(pub String);

impl View for Token {
    type V = Seq<char>;

    open spec fn view(&self) -> Seq<char> {
        self.0@
    }
}

/// The characters of the URL-safe base64 alphabet, without padding.
pub open spec fn is_base64url_char(c: char) -> bool {
    ||| 'A' <= c <= 'Z'
    ||| 'a' <= c <= 'z'
    ||| '0' <= c <= '9'
    ||| c == '-'
    ||| c == '_'
}

/// A segment is a non-empty run of base64url characters.
pub open spec fn is_segment(s: Seq<char>) -> bool {
    &&& s.len() > 0
    &&& forall|i: int| 0 <= i < s.len() ==> is_base64url_char(#[trigger] s[i])
}

/// `text` splits at positions `first` and `second` into three segments.
pub open spec fn splits_at(text: Seq<char>, first: int, second: int) -> bool {
    &&& 0 <= first < second < text.len()
    &&& text[first] == '.'
    &&& text[second] == '.'
    &&& is_segment(text.subrange(0, first))
    &&& is_segment(text.subrange(first + 1, second))
    &&& is_segment(text.subrange(second + 1, text.len() as int))
}

/// A token is well formed when it is made of exactly three segments
/// separated by two dots.
pub open spec fn is_well_formed(text: Seq<char>) -> bool {
    exists|first: int, second: int| splits_at(text, first, second)
}

/// The positions of the two dots of a token.
#[derive(Debug, Clone, Copy, PartialEq, Eq, Structural)]
pub struct Segments {
    pub first_dot: usize,
    pub second_dot: usize,
}

fn is_base64url_byte(b: u8) -> (yes: bool)
    ensures
        yes == is_base64url_char(b as char),
{
    (b >= 65 && b <= 90) || (b >= 97 && b <= 122) || (b >= 48 && b <= 57) || b == 45 || b == 95
}

/// In a split token every position is either one of the two dots or a
/// base64url character.
pub proof fn lemma_split_position(text: Seq<char>, first: int, second: int, k: int)
    requires
        splits_at(text, first, second),
        0 <= k < text.len(),
    ensures
        (k == first || k == second) ==> text[k] == '.',
        (k != first && k != second) ==> is_base64url_char(text[k]),
{
    if k < first {
        assert(text.subrange(0, first)[k] == text[k]);
    } else if first < k < second {
        assert(text.subrange(first + 1, second)[k - first - 1] == text[k]);
    } else if k > second {
        assert(text.subrange(second + 1, text.len() as int)[k - second - 1] == text[k]);
    }
}

/// A well-formed token splits in one way only.
pub proof fn lemma_split_unique(text: Seq<char>, a: int, b: int, c: int, d: int)
    requires
        splits_at(text, a, b),
        splits_at(text, c, d),
    ensures
        a == c,
        b == d,
{
    lemma_split_position(text, a, b, c);
    lemma_split_position(text, a, b, d);
    lemma_split_position(text, c, d, a);
    lemma_split_position(text, c, d, b);
}

/// Finds the two dots of a well-formed token; `None` for any other text.
///
/// Only the characters are inspected: nothing is decoded.
pub fn find_segments(token: &str) -> (found: Option<Segments>)
    ensures
        found is Some <==> is_well_formed(token@),
        found matches Some(s) ==> splits_at(token@, s.first_dot as int, s.second_dot as int),
{
    broadcast use is_ascii_spec_bytes;

    if !token.is_ascii() {
        proof {
            let k = choose|k: int| 0 <= k < token@.len() && !('\0' <= #[trigger] token@[k] <= '\u{7f}');
            assert forall|a: int, b: int| !splits_at(token@, a, b) by {
                if splits_at(token@, a, b) {
                    lemma_split_position(token@, a, b, k);
                }
            }
        }
        return None;
    }
    let bytes = token.as_bytes();
    let n: usize = bytes.len();
    assert(n == token@.len());
    assert(forall|k: int| 0 <= k < n ==> bytes@[k] == token@[k] as u8);
    let mut dots: u8 = 0;
    let mut first: usize = 0;
    let mut second: usize = 0;
    let mut i: usize = 0;
    while i < n
        invariant
            0 <= i <= n,
            n == token@.len(),
            n == bytes@.len(),
            is_ascii(token),
            forall|k: int| 0 <= k < n ==> bytes@[k] == token@[k] as u8,
            dots <= 2,
            dots == 0 ==> forall|k: int| 0 <= k < i ==> is_base64url_char(#[trigger] token@[k]),
            dots >= 1 ==> 0 < first < i && token@[first as int] == '.' && (forall|k: int|
                0 <= k < first ==> is_base64url_char(#[trigger] token@[k])),
            dots == 1 ==> forall|k: int| first < k < i ==> is_base64url_char(#[trigger] token@[k]),
            dots == 2 ==> first + 1 < second < i && token@[second as int] == '.' && (forall|k: int|
                first < k < second ==> is_base64url_char(#[trigger] token@[k])) && (forall|k: int|
                second < k < i ==> is_base64url_char(#[trigger] token@[k])),
        decreases n - i,
    {
        let b: u8 = bytes[i];
        assert(token@[i as int] == b as char);
        if b == 46 {
            let empty_before: bool = if dots == 0 {
                i == 0
            } else {
                dots == 2 || i == first + 1
            };
            if empty_before {
                proof {
                    assert forall|a: int, c: int| !splits_at(token@, a, c) by {
                        if splits_at(token@, a, c) {
                            lemma_split_position(token@, a, c, i as int);
                            if dots >= 1 {
                                lemma_split_position(token@, a, c, first as int);
                            }
                            if dots == 2 {
                                lemma_split_position(token@, a, c, second as int);
                            }
                            if dots == 0 {
                                assert(token@.subrange(0, a).len() > 0);
                                lemma_split_position(token@, a, c, 0);
                            } else if dots == 1 {
                                assert(token@.subrange(a + 1, c).len() > 0);
                                lemma_split_position(token@, a, c, 0);
                            }
                        }
                    }
                }
                return None;
            }
            if dots == 0 {
                first = i;
                dots = 1;
            } else {
                second = i;
                dots = 2;
            }
        } else if !is_base64url_byte(b) {
            proof {
                assert forall|a: int, c: int| !splits_at(token@, a, c) by {
                    if splits_at(token@, a, c) {
                        lemma_split_position(token@, a, c, i as int);
                    }
                }
            }
            return None;
        }
        i = i + 1;
    }
    if dots == 2 && second + 1 < n {
        proof {
            assert(is_segment(token@.subrange(0, first as int)));
            assert(is_segment(token@.subrange(first + 1, second as int)));
            assert(is_segment(token@.subrange(second + 1, n as int)));
            assert(splits_at(token@, first as int, second as int));
        }
        Some(Segments { first_dot: first, second_dot: second })
    } else {
        proof {
            assert forall|a: int, c: int| !splits_at(token@, a, c) by {
                if splits_at(token@, a, c) {
                    lemma_split_position(token@, a, c, a);
                    lemma_split_position(token@, a, c, c);
                    if dots == 2 {
                        assert(token@.subrange(c + 1, n as int).len() > 0);
                        lemma_split_position(token@, a, c, n - 1);
                        lemma_split_position(token@, a, c, first as int);
                        lemma_split_position(token@, a, c, second as int);
                    }
                }
            }
        }
        None
    }
}

} // verus!
