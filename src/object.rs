use vstd::prelude::*;
use vstd::string::*;

verus! {

/// The lowercase hexadecimal digit of a value below sixteen.
pub open spec fn hex_digit(n: u8) -> char {
    if n == 0 {
        '0'
    } else if n == 1 {
        '1'
    } else if n == 2 {
        '2'
    } else if n == 3 {
        '3'
    } else if n == 4 {
        '4'
    } else if n == 5 {
        '5'
    } else if n == 6 {
        '6'
    } else if n == 7 {
        '7'
    } else if n == 8 {
        '8'
    } else if n == 9 {
        '9'
    } else if n == 10 {
        'a'
    } else if n == 11 {
        'b'
    } else if n == 12 {
        'c'
    } else if n == 13 {
        'd'
    } else if n == 14 {
        'e'
    } else {
        'f'
    }
}

/// The lowercase hexadecimal text of a byte sequence, two digits per byte,
/// high digit first.
pub open spec fn hex_text(b: Seq<u8>) -> Seq<char>
    decreases b.len(),
{
    if b.len() == 0 {
        Seq::empty()
    } else {
        hex_text(b.drop_last()) + seq![hex_digit(b.last() / 16), hex_digit(b.last() % 16)]
    }
}

/// Appends the hexadecimal digit of `n` to `s`.
fn push_hex_digit(s: &mut String, n: u8)
    requires
        n < 16,
    ensures
        final(s)@ == old(s)@.push(hex_digit(n)),
{
    let ghost before = s@;
    match n {
        0 => {
            s.append("0");
            proof {
                reveal_strlit("0");
            }
        },
        1 => {
            s.append("1");
            proof {
                reveal_strlit("1");
            }
        },
        2 => {
            s.append("2");
            proof {
                reveal_strlit("2");
            }
        },
        3 => {
            s.append("3");
            proof {
                reveal_strlit("3");
            }
        },
        4 => {
            s.append("4");
            proof {
                reveal_strlit("4");
            }
        },
        5 => {
            s.append("5");
            proof {
                reveal_strlit("5");
            }
        },
        6 => {
            s.append("6");
            proof {
                reveal_strlit("6");
            }
        },
        7 => {
            s.append("7");
            proof {
                reveal_strlit("7");
            }
        },
        8 => {
            s.append("8");
            proof {
                reveal_strlit("8");
            }
        },
        9 => {
            s.append("9");
            proof {
                reveal_strlit("9");
            }
        },
        10 => {
            s.append("a");
            proof {
                reveal_strlit("a");
            }
        },
        11 => {
            s.append("b");
            proof {
                reveal_strlit("b");
            }
        },
        12 => {
            s.append("c");
            proof {
                reveal_strlit("c");
            }
        },
        13 => {
            s.append("d");
            proof {
                reveal_strlit("d");
            }
        },
        14 => {
            s.append("e");
            proof {
                reveal_strlit("e");
            }
        },
        _ => {
            s.append("f");
            proof {
                reveal_strlit("f");
            }
        },
    }
    assert(s@ =~= before.push(hex_digit(n)));
}

/// A content-addressed object name (a commit or a tree): the raw bytes of its hash.
///
/// The version-control engine produces ids; this library compares them (see
/// `same`) and writes them out in hexadecimal, and never makes new ones.
#[derive(Clone, Copy, Debug, PartialEq, Eq)]
pub struct ObjectId {
    pub bytes: [u8; 20],
}

impl ObjectId {
    /// Builds an id from its twenty raw bytes.
    pub fn from_bytes(bytes: [u8; 20]) -> (r: ObjectId)
        ensures
            r.bytes == bytes,
    {
        ObjectId { bytes }
    }

    /// Whether two ids name the same object.
    pub fn same(&self, other: &ObjectId) -> (r: bool)
        ensures
            r == (*self == *other),
    {
        let mut i: usize = 0;
        while i < 20
            invariant
                0 <= i <= 20,
                forall|j: int| 0 <= j < i ==> self.bytes[j] == other.bytes[j],
            decreases 20 - i,
        {
            if self.bytes[i] != other.bytes[i] {
                return false;
            }
            i = i + 1;
        }
        assert(self.bytes =~= other.bytes);
        true
    }

    /// The id in lowercase hexadecimal, forty digits.
    pub fn hex(&self) -> (r: String)
        ensures
            r@ == hex_text(self.bytes@),
    {
        let mut s = String::new();
        let mut i: usize = 0;
        while i < 20
            invariant
                0 <= i <= 20,
                self.bytes@.len() == 20,
                s@ == hex_text(self.bytes@.subrange(0, i as int)),
            decreases 20 - i,
        {
            let b = self.bytes[i];
            push_hex_digit(&mut s, b / 16);
            push_hex_digit(&mut s, b % 16);
            assert(self.bytes@.subrange(0, i + 1).drop_last() =~= self.bytes@.subrange(0, i as int));
            i = i + 1;
        }
        assert(self.bytes@.subrange(0, 20) =~= self.bytes@);
        s
    }

    /// Whether `tip` is this id.
    pub fn is_tip(&self, tip: Option<ObjectId>) -> (r: bool)
        ensures
            r == (tip == Some(*self)),
    {
        match tip {
            Some(t) => t.same(self),
            None => false,
        }
    }
}

} // verus!
