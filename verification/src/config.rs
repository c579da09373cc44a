//! Server settings, from optional textual values to what the listener needs.

use vstd::prelude::*;
use vstd::string::StringExecFns;

verus! {

/// Every character of `s` is a decimal digit.
pub open spec fn all_digits(s: Seq<char>) -> bool {
    forall|i: int| 0 <= i < s.len() ==> '0' <= #[trigger] s[i] <= '9'
}

/// The number that the decimal digits `s` write; zero for no digits.
pub open spec fn digits_value(s: Seq<char>) -> nat
    decreases s.len(),
{
    if s.len() == 0 {
        0
    } else {
        (digits_value(s.drop_last()) * 10 + (s.last() as nat - '0' as nat)) as nat
    }
}

/// The digits of an unsigned numeral: what follows one optional `+`.
pub open spec fn numeral_digits(s: Seq<char>) -> Seq<char> {
    if s.len() > 0 && s.first() == '+' {
        s.drop_first()
    } else {
        s
    }
}

/// The count that `s` writes: one optional `+`, then at least one decimal
/// digit and nothing else, with a value that fits the machine word.
pub open spec fn count_of(s: Seq<char>) -> Option<usize> {
    let digits = numeral_digits(s);
    if digits.len() > 0 && all_digits(digits) && digits_value(digits) <= usize::MAX {
        Some(digits_value(digits) as usize)
    } else {
        None
    }
}

/// Digits written after a numeral never make it smaller.
proof fn lemma_digits_value_grows(s: Seq<char>, k: int)
    requires
        all_digits(s),
        0 <= k <= s.len(),
    ensures
        digits_value(s.subrange(0, k)) <= digits_value(s),
    decreases s.len() - k,
{
    if k == s.len() {
        assert(s.subrange(0, k) =~= s);
    } else {
        lemma_digits_value_grows(s, k + 1);
        let longer = s.subrange(0, k + 1);
        assert(longer.drop_last() =~= s.subrange(0, k));
        assert(longer.last() == s[k]);
    }
}

/// Reads an unsigned decimal count, as `count_of` defines it.
pub fn parse_count(s: &str) -> (count: Option<usize>)
    ensures
        count == count_of(s@),
{
    let len = s.unicode_len();
    let mut value: usize = 0;
    let mut start: usize = 0;
    let mut idx: usize = 0;
    for c in it: s.chars()
        invariant
            it.seq() == s@,
            len == s@.len(),
            idx == it.index(),
            start <= 1,
            idx > 0 ==> start <= idx && numeral_digits(s@) == s@.subrange(
                start as int,
                len as int,
            ),
            idx == 0 ==> start == 0 && value == 0,
            all_digits(s@.subrange(start as int, idx as int)),
            value == digits_value(s@.subrange(start as int, idx as int)),
    {
        let ghost digits = numeral_digits(s@);
        if idx == 0 && c == '+' {
            start = 1;
            proof {
                assert(s@.drop_first() =~= s@.subrange(1, len as int));
                assert(s@.subrange(1, 1) =~= Seq::<char>::empty());
            }
        } else if '0' <= c && c <= '9' {
            proof {
                if idx == 0 {
                    assert(s@ =~= s@.subrange(0, len as int));
                    assert(s@.subrange(0, 0) =~= Seq::<char>::empty());
                }
                let seen = s@.subrange(start as int, idx + 1);
                assert(seen.drop_last() =~= s@.subrange(start as int, idx as int));
                assert(seen.last() == c);
                assert(seen =~= digits.subrange(0, idx + 1 - start));
                assert(all_digits(seen)) by {
                    assert forall|i: int| 0 <= i < seen.len() implies '0' <= #[trigger] seen[i]
                        <= '9' by {
                        if i < seen.len() - 1 {
                            assert(seen[i] == s@.subrange(start as int, idx as int)[i]);
                        }
                    }
                }
                if all_digits(digits) {
                    lemma_digits_value_grows(digits, idx + 1 - start);
                }
            }
            let digit = (c as u8 - '0' as u8) as usize;
            let tenfold = match value.checked_mul(10) {
                Some(tenfold) => tenfold,
                None => {
                    return None;
                },
            };
            value = match tenfold.checked_add(digit) {
                Some(sum) => sum,
                None => {
                    return None;
                },
            };
        } else {
            proof {
                if idx == 0 {
                    assert(s@ =~= s@.subrange(0, len as int));
                }
                assert(digits[idx - start] == c);
            }
            return None;
        }
        idx = idx + 1;
    }
    proof {
        if idx == 0 {
            assert(s@ =~= s@.subrange(0, len as int));
        }
    }
    if idx == start {
        None
    } else {
        Some(value)
    }
}

/// What the listener is started with.
#[derive(Clone, Debug, PartialEq, Eq)]
pub struct ServerConfig {
    /// The host name or address to bind.
    pub host: String,
    /// The port to bind, as text.
    pub port: String,
    /// The number of worker threads.
    pub workers: usize,
}

/// The text of `value`, or of `fallback` where there is none.
pub open spec fn text_or(value: Option<String>, fallback: Seq<char>) -> Seq<char> {
    match value {
        Some(text) => text@,
        None => fallback,
    }
}

/// The worker count that `value` asks for, or `available` where it is
/// missing or does not write a count.
pub open spec fn workers_or(value: Option<String>, available: usize) -> usize {
    match value {
        Some(text) => match count_of(text@) {
            Some(count) => count,
            None => available,
        },
        None => available,
    }
}

impl ServerConfig {
    /// Settles the configuration: the host defaults to "0.0.0.0", the port
    /// to "8080", and the worker count to `available`, the number of
    /// processing units, also where `workers` does not write a count.
    pub fn from_settings(
        host: Option<String>,
        port: Option<String>,
        workers: Option<String>,
        available: usize,
    ) -> (config: ServerConfig)
        ensures
            config.host@ == text_or(host, "0.0.0.0"@),
            config.port@ == text_or(port, "8080"@),
            config.workers == workers_or(workers, available),
    {
        let host = match host {
            Some(host) => host,
            None => String::from_str("0.0.0.0"),
        };
        let port = match port {
            Some(port) => port,
            None => String::from_str("8080"),
        };
        let workers = match workers {
            Some(text) => match parse_count(text.as_str()) {
                Some(count) => count,
                None => available,
            },
            None => available,
        };
        ServerConfig { host, port, workers }
    }

    /// The address to bind: host, a colon, port.
    pub fn bind_address(&self) -> (address: String)
        ensures
            address@ == self.host@ + ":"@ + self.port@,
    {
        let mut address = self.host.clone();
        address.append(":");
        address.append(self.port.as_str());
        address
    }
}

} // verus!
