//! The structured command shape of the wire protocol: a command name and a
//! non-negative integer value, written as the name, a colon, and the value
//! in decimal (`set-work:30`). Anything that does not parse as that shape
//! falls through to the bare-keyword commands.
use crate::strutil::all_digits;
use crate::strutil::dec_spec;
use crate::strutil::find_char_from;
use crate::strutil::lemma_dec_spec;
use crate::strutil::lemma_split_free;
use crate::strutil::lemma_split_has_sep;
use crate::strutil::lemma_split_prefix;
use crate::strutil::num_of;
use crate::strutil::parse_u32;
use crate::strutil::split_char_spec;
use crate::strutil::u32_to_dec;
use vstd::prelude::*;

verus! {

/// A decoded structured command.
#[derive(Debug)]
pub struct Message {
    pub name: String,
    pub value: u32,
}

/// Decoding failure: the payload is not a structured command and is to be
/// read as a bare keyword instead.
#[derive(Clone, Copy, Debug, PartialEq, Eq, Structural)]
pub enum DecodeError {
    NotStructured,
}

/// The wire text of a structured command: name, colon, decimal value.
pub open spec fn encode_spec(name: Seq<char>, value: nat) -> Seq<char> {
    name + seq![':'] + dec_spec(value)
}

/// What decoding yields: the name before the first colon and the value
/// after it, provided the part after that colon is one or more decimal
/// digits denoting a value the message can carry; `None` otherwise.
pub open spec fn decode_spec(s: Seq<char>) -> Option<(Seq<char>, nat)> {
    let parts = split_char_spec(s, ':');
    if parts.len() == 2 && parts[1].len() > 0 && all_digits(parts[1]) && num_of(parts[1])
        <= u32::MAX as nat {
        Some((parts[0], num_of(parts[1])))
    } else {
        None
    }
}

impl Message {
    pub fn new(name: &str, value: u32) -> (m: Message)
        ensures
            m.name@ == name@,
            m.value == value,
    {
        Message { name: String::from_str(name), value }
    }

    pub fn name(&self) -> (r: &str)
        ensures
            r@ == self.name@,
    {
        self.name.as_str()
    }

    pub fn value(&self) -> (r: u32)
        ensures
            r == self.value,
    {
        self.value
    }

    /// The wire text carrying this message.
    pub fn encode(&self) -> (r: String)
        ensures
            r@ == encode_spec(self.name@, self.value as nat),
    {
        proof {
            reveal_strlit(":");
        }
        let mut s = self.name.clone();
        s.append(":");
        let d = u32_to_dec(self.value);
        s.append(d.as_str());
        proof {
            assert(":"@ =~= seq![':']);
            assert(s@ =~= self.name@ + seq![':'] + dec_spec(self.value as nat));
        }
        s
    }

    /// Reads a structured command back from wire text. Never panics on
    /// malformed input: anything that is not name-colon-digits comes back
    /// as `DecodeError::NotStructured`.
    pub fn decode(s: &str) -> (r: Result<Message, DecodeError>)
        ensures
            match r {
                Ok(m) => decode_spec(s@) == Some((m.name@, m.value as nat)),
                Err(_) => decode_spec(s@) is None,
            },
    {
        let n = s.unicode_len();
        match find_char_from(s, 0, ':') {
            None => {
                proof {
                    lemma_split_free(s@, ':');
                }
                Err(DecodeError::NotStructured)
            },
            Some(i) => {
                let name = s.substring_char(0, i);
                let val_str = s.substring_char(i + 1, n);
                proof {
                    assert(forall|k: int| 0 <= k < name@.len() ==> name@[k] == s@[k]);
                    assert(name@ + seq![':'] + val_str@ =~= s@);
                }
                match parse_u32(val_str) {
                    Some(v) => {
                        proof {
                            assert(forall|k: int|
                                0 <= k < val_str@.len() ==> #[trigger] val_str@[k] != ':');
                            lemma_split_prefix(name@, val_str@, ':');
                            lemma_split_free(val_str@, ':');
                            let parts = split_char_spec(s@, ':');
                            assert(parts =~~= seq![name@, val_str@]);
                        }
                        Ok(Message { name: String::from_str(name), value: v })
                    },
                    None => {
                        proof {
                            lemma_split_prefix(name@, val_str@, ':');
                            if exists|j: int| 0 <= j < val_str@.len() && val_str@[j] == ':' {
                                let j = choose|j: int|
                                    0 <= j < val_str@.len() && val_str@[j] == ':';
                                lemma_split_has_sep(val_str@, ':', j);
                            } else {
                                lemma_split_free(val_str@, ':');
                                let parts = split_char_spec(s@, ':');
                                assert(parts =~~= seq![name@, val_str@]);
                            }
                        }
                        Err(DecodeError::NotStructured)
                    },
                }
            },
        }
    }
}

/// A command name holds no colon, so encoding keeps it apart from the
/// value and decoding recovers both exactly.
proof fn lemma_round_trip_general(name: Seq<char>, value: u32)
    requires
        forall|k: int| 0 <= k < name.len() ==> name[k] != ':',
    ensures
        decode_spec(encode_spec(name, value as nat)) == Some((name, value as nat)),
{
    lemma_dec_spec(value as nat);
    let d = dec_spec(value as nat);
    assert(forall|k: int| 0 <= k < d.len() ==> #[trigger] d[k] != ':');
    lemma_split_prefix(name, d, ':');
    lemma_split_free(d, ':');
    let parts = split_char_spec(name + seq![':'] + d, ':');
    assert(parts =~~= seq![name, d]);
}

/// Round trip: for each of the three recognized structured command names
/// and every value the message can carry, decoding the encoded command
/// yields that name and value unchanged.
pub proof fn lemma_round_trip(name: Seq<char>, value: u32)
    requires
        name == "set-work"@ || name == "set-short"@ || name == "set-long"@,
    ensures
        decode_spec(encode_spec(name, value as nat)) == Some((name, value as nat)),
{
    reveal_strlit("set-work");
    reveal_strlit("set-short");
    reveal_strlit("set-long");
    lemma_round_trip_general(name, value);
}

} // verus!
