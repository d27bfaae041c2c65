use vstd::prelude::*;

verus! {

/// Settings shared read-only by every handler invocation for the lifetime
/// of the process. Constructed once at startup and never changed afterwards.
pub struct HandlerConfig {
    /// The name greeted or echoed by the handlers when a request carries none.
    pub name: String,
}

impl Default for HandlerConfig {
    /// The default configuration greets `world`.
    fn default() -> (c: HandlerConfig)
        ensures
            c.name@ == "world"@,
    {
        HandlerConfig { name: "world".to_owned() }
    }
}

/// The value of a sequence of decimal digit bytes, read left to right.
pub open spec fn decimal_value(s: Seq<u8>) -> int
    decreases s.len(),
{
    if s.len() == 0 {
        0
    } else {
        decimal_value(s.drop_last()) * 10 + (s.last() - 0x30)
    }
}

/// Whether every byte of `s` is a decimal digit.
pub open spec fn all_digits(s: Seq<u8>) -> bool {
    forall|i: int| 0 <= i < s.len() ==> (0x30 <= #[trigger] s[i] <= 0x39)
}

/// Whether `s` is a valid `PORT` value: one or more decimal digits whose
/// value fits a port number.
pub open spec fn is_port_text(s: Seq<u8>) -> bool {
    s.len() >= 1 && all_digits(s) && decimal_value(s) <= 65535
}

/// The port a `PORT` value selects, if it is valid.
pub open spec fn port_of(s: Seq<u8>) -> Option<u16> {
    if is_port_text(s) {
        Some(decimal_value(s) as u16)
    } else {
        None
    }
}

proof fn lemma_decimal_value_nonneg(s: Seq<u8>)
    requires
        all_digits(s),
    ensures
        decimal_value(s) >= 0,
    decreases s.len(),
{
    if s.len() > 0 {
        assert(all_digits(s.drop_last())) by {
            assert(forall|i: int|
                0 <= i < s.drop_last().len() ==> #[trigger] s.drop_last()[i] == s[i]);
        }
        lemma_decimal_value_nonneg(s.drop_last());
    }
}

proof fn lemma_decimal_value_prefix_le(s: Seq<u8>, k: int)
    requires
        0 <= k <= s.len(),
        all_digits(s),
    ensures
        decimal_value(s.take(k)) <= decimal_value(s),
    decreases s.len() - k,
{
    if k < s.len() {
        lemma_decimal_value_prefix_le(s, k + 1);
        assert(all_digits(s.take(k))) by {
            assert(forall|i: int| 0 <= i < k ==> #[trigger] s.take(k)[i] == s[i]);
        }
        lemma_decimal_value_nonneg(s.take(k));
        assert(s.take(k + 1).drop_last() =~= s.take(k));
        assert(s.take(k + 1).last() == s[k]);
    } else {
        assert(s.take(k) =~= s);
    }
}

/// Reads a `PORT` value: the port number when the bytes are one or more
/// decimal digits whose value fits, and nothing otherwise.
pub fn parse_port(s: &[u8]) -> (r: Option<u16>)
    ensures
        r == port_of(s@),
{
    if s.len() == 0 {
        return None;
    }
    let mut acc: u32 = 0;
    let mut i: usize = 0;
    while i < s.len()
        invariant
            0 <= i <= s@.len(),
            s@.len() >= 1,
            all_digits(s@.take(i as int)),
            acc == decimal_value(s@.take(i as int)),
            acc <= 65535,
        decreases s@.len() - i,
    {
        let b: u8 = s[i];
        if b < 0x30 || b > 0x39 {
            assert(!all_digits(s@));
            return None;
        }
        proof {
            assert(forall|j: int|
                0 <= j < i as int ==> #[trigger] s@.take(i as int)[j] == s@[j]);
            assert(forall|j: int|
                0 <= j < i as int + 1 ==> #[trigger] s@.take(i as int + 1)[j] == s@[j]);
            assert(s@.take(i as int + 1).drop_last() =~= s@.take(i as int));
            assert(s@.take(i as int + 1).last() == s@[i as int]);
        }
        let d: u32 = (b - 0x30) as u32;
        let next: u32 = acc * 10 + d;
        if next > 65535 {
            proof {
                if all_digits(s@) {
                    lemma_decimal_value_prefix_le(s@, i as int + 1);
                }
            }
            return None;
        }
        acc = next;
        i = i + 1;
    }
    proof {
        assert(s@.take(s@.len() as int) =~= s@);
    }
    Some(acc as u16)
}

/// The port the server binds: 8080 when no `PORT` value is given, the
/// parsed value when the given one is valid, and nothing — startup fails —
/// otherwise.
pub fn configured_port(env_value: Option<&[u8]>) -> (r: Option<u16>)
    ensures
        env_value is None ==> r == Some(8080u16),
        env_value matches Some(s) ==> r == port_of(s@),
{
    match env_value {
        None => Some(8080),
        Some(s) => parse_port(s),
    }
}

} // verus!
