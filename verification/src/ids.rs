//! Job identifiers: 128-bit values, shown and stored as hyphenated UUID text.
use vstd::prelude::*;
use crate::text::{hex_fixed, hex_u128_fixed, owned, push_char, push_str};

verus! {

/// The hyphenated lowercase text of a UUID: its 32 hexadecimal digits, most
/// significant first, in groups of 8, 4, 4, 4 and 12 joined by `-`.
pub open spec fn uuid_text(id: u128) -> Seq<char> {
    let d = hex_fixed(id as nat, 32);
    d.subrange(0, 8) + "-"@ + d.subrange(8, 12) + "-"@ + d.subrange(12, 16) + "-"@
        + d.subrange(16, 20) + "-"@ + d.subrange(20, 32)
}

proof fn lemma_hex_fixed_len(n: nat, width: nat)
    ensures
        hex_fixed(n, width).len() == width,
    decreases width,
{
    if width > 0 {
        lemma_hex_fixed_len(n / 16, (width - 1) as nat);
    }
}

fn push_range(s: &mut String, cs: &Vec<char>, a: usize, b: usize)
    requires
        a <= b <= cs@.len(),
    ensures
        final(s)@ == old(s)@ + cs@.subrange(a as int, b as int),
{
    let mut i = a;
    while i < b
        invariant
            a <= i <= b,
            b <= cs@.len(),
            s@ == old(s)@ + cs@.subrange(a as int, i as int),
        decreases b - i,
    {
        push_char(s, cs[i]);
        i = i + 1;
        assert(s@ =~= old(s)@ + cs@.subrange(a as int, i as int));
    }
}

/// The text a job identifier is shown and stored as, the same as
/// `uuid::Uuid::from_u128(id).to_string()`.
pub fn job_id_text(id: u128) -> (s: String)
    ensures
        s@ == uuid_text(id),
{
    let d = hex_u128_fixed(id, 32);
    proof {
        lemma_hex_fixed_len(id as nat, 32);
        reveal_strlit("-");
    }
    let cs = crate::text::chars_vec(d.as_str());
    let mut s = String::new();
    push_range(&mut s, &cs, 0, 8);
    push_char(&mut s, '-');
    push_range(&mut s, &cs, 8, 12);
    push_char(&mut s, '-');
    push_range(&mut s, &cs, 12, 16);
    push_char(&mut s, '-');
    push_range(&mut s, &cs, 16, 20);
    push_char(&mut s, '-');
    push_range(&mut s, &cs, 20, 32);
    assert(s@ =~= uuid_text(id));
    s
}

/// A random UUID's value: version 4 in bits 76 to 79 and the RFC 4122
/// variant (binary `10`) in bits 62 and 63.
pub open spec fn is_random_uuid(id: u128) -> bool {
    (id >> 76u128) & 0xfu128 == 4u128 && (id >> 62u128) & 0x3u128 == 2u128
}

/// The version-4 UUID made from 128 random bits, as
/// `uuid::Builder::from_random_bytes` makes it: the version and variant bits
/// are set, the other 122 bits are kept.
pub open spec fn uuid_v4_from(random: u128) -> u128 {
    (random & 0xffff_ffff_ffff_4fff_bfff_ffff_ffff_ffffu128) | 0x0000_0000_0000_4000_8000_0000_0000_0000u128
}

/// Makes a version-4 UUID from 128 random bits.
pub fn uuid_v4(random: u128) -> (id: u128)
    ensures
        id == uuid_v4_from(random),
        is_random_uuid(id),
{
    let id = (random & 0xffff_ffff_ffff_4fff_bfff_ffff_ffff_ffffu128) | 0x0000_0000_0000_4000_8000_0000_0000_0000u128;
    assert(is_random_uuid(id)) by (bit_vector)
        requires
            id == (random & 0xffff_ffff_ffff_4fff_bfff_ffff_ffff_ffffu128) | 0x0000_0000_0000_4000_8000_0000_0000_0000u128,
    ;
    id
}

/// A time-ordered UUID's value: version 7 in bits 76 to 79 and the RFC 4122
/// variant in bits 62 and 63.
pub open spec fn is_time_ordered_uuid(id: u128) -> bool {
    (id >> 76u128) & 0xfu128 == 7u128 && (id >> 62u128) & 0x3u128 == 2u128
}

/// The version-7 UUID for a Unix time in milliseconds and random bits, as
/// `uuid::Builder::from_unix_timestamp_millis` lays it out: the low 48 bits
/// of the time in the top 48 bits, then the version, 12 random bits, the
/// variant and 62 random bits.
pub open spec fn uuid_v7_from(unix_ms: u64, random: u128) -> u128 {
    (((unix_ms as u128) & 0xffff_ffff_ffffu128) << 80u128) | (random & 0x0fff_3fff_ffff_ffff_ffffu128)
        | 0x7000_8000_0000_0000_0000u128
}

/// Makes a version-7 UUID from a Unix time in milliseconds and random bits.
pub fn uuid_v7(unix_ms: u64, random: u128) -> (id: u128)
    ensures
        id == uuid_v7_from(unix_ms, random),
        is_time_ordered_uuid(id),
        unix_ms < 0x1_0000_0000_0000 ==> id >> 80u128 == unix_ms as u128,
{
    let t: u128 = unix_ms as u128;
    let id = ((t & 0xffff_ffff_ffffu128) << 80u128) | (random & 0x0fff_3fff_ffff_ffff_ffffu128)
        | 0x7000_8000_0000_0000_0000u128;
    assert(is_time_ordered_uuid(id)) by (bit_vector)
        requires
            id == ((t & 0xffff_ffff_ffffu128) << 80u128) | (random & 0x0fff_3fff_ffff_ffff_ffffu128)
                | 0x7000_8000_0000_0000_0000u128,
    ;
    assert(t < 0x1_0000_0000_0000u128 ==> id >> 80u128 == t) by (bit_vector)
        requires
            id == ((t & 0xffff_ffff_ffffu128) << 80u128) | (random & 0x0fff_3fff_ffff_ffff_ffffu128)
                | 0x7000_8000_0000_0000_0000u128,
    ;
    id
}

/// The time source of job identifiers: the latest millisecond an identifier
/// was made for, so that a wall clock set back never makes an identifier
/// carry an earlier time than one made before it.
pub struct JobIdClock {
    last_ms: u64,
}

impl JobIdClock {
    /// The millisecond of the latest identifier made.
    pub closed spec fn last(&self) -> u64 {
        self.last_ms
    }

    /// A clock that has made no identifier yet.
    pub fn new() -> (c: JobIdClock)
        ensures
            c.last() == 0,
    {
        JobIdClock { last_ms: 0 }
    }

    /// Makes the next job identifier at wall-clock time `now_ms` from random
    /// bits: a version-7 UUID for `now_ms`, or for the latest millisecond
    /// used when the clock went back.
    pub fn next_id(&mut self, now_ms: u64, random: u128) -> (id: u128)
        ensures
            final(self).last() == (if now_ms > old(self).last() { now_ms } else { old(self).last() }),
            final(self).last() >= old(self).last(),
            id == uuid_v7_from(final(self).last(), random),
            is_time_ordered_uuid(id),
    {
        if now_ms > self.last_ms {
            self.last_ms = now_ms;
        }
        uuid_v7(self.last_ms, random)
    }
}

/// Job identifiers are ordered by the time they were made: the time an
/// identifier carries (its top 48 bits) is the millisecond it was made in, so
/// identifiers made at no earlier time carry no earlier time, and one made in
/// a later millisecond is larger, whatever the random bits (for times before
/// the year 10889, which fit the 48 bits). Successive identifiers of a
/// `JobIdClock` are made for non-decreasing times, so they are ordered too.
pub proof fn law_job_ids_follow_time(ms1: u64, r1: u128, ms2: u64, r2: u128)
    requires
        ms1 <= ms2,
        ms2 < 0x1_0000_0000_0000,
    ensures
        uuid_v7_from(ms1, r1) >> 80u128 == ms1 as u128,
        uuid_v7_from(ms2, r2) >> 80u128 == ms2 as u128,
        uuid_v7_from(ms1, r1) >> 80u128 <= uuid_v7_from(ms2, r2) >> 80u128,
        ms1 < ms2 ==> uuid_v7_from(ms1, r1) < uuid_v7_from(ms2, r2),
{
    let a = uuid_v7_from(ms1, r1);
    let b = uuid_v7_from(ms2, r2);
    let t1 = ms1 as u128;
    let t2 = ms2 as u128;
    assert(a >> 80u128 == t1) by (bit_vector)
        requires
            a == ((t1 & 0xffff_ffff_ffffu128) << 80u128) | (r1 & 0x0fff_3fff_ffff_ffff_ffffu128)
                | 0x7000_8000_0000_0000_0000u128,
            t1 < 0x1_0000_0000_0000u128,
    ;
    assert(b >> 80u128 == t2) by (bit_vector)
        requires
            b == ((t2 & 0xffff_ffff_ffffu128) << 80u128) | (r2 & 0x0fff_3fff_ffff_ffff_ffffu128)
                | 0x7000_8000_0000_0000_0000u128,
            t2 < 0x1_0000_0000_0000u128,
    ;
    assert(a >> 80u128 < b >> 80u128 ==> a < b) by (bit_vector);
}

/// The 128-bit value `uuid::Uuid::parse_str` reads from a text, if it reads one.
pub uninterp spec fn uuid_parse(text: Seq<char>) -> Option<u128>;

/// `uuid::Uuid::parse_str` followed by `as_u128`: reads a UUID in any of the
/// crate's formats (simple, hyphenated, URN, braced). The crate's examples
/// show that the hyphenated text of a value reads back as that value. The
/// text of the error is the crate's message and is not described here.
#[verifier::external_body]
fn uuid_parse_str(text: &str) -> (r: Result<u128, String>)
    ensures
        r is Ok <==> uuid_parse(text@) is Some,
        r matches Ok(v) ==> uuid_parse(text@) == Some(v),
        r matches Ok(v) ==> (forall|x: u128| text@ == uuid_text(x) ==> v == x),
        (exists|x: u128| text@ == uuid_text(x)) ==> r is Ok,
{
    uuid::Uuid::parse_str(text).map(|u| u.as_u128()).map_err(|e| e.to_string())
}

/// Reads a job identifier given as text.
pub fn parse_job_id(text: &str) -> (r: Result<u128, String>)
    ensures
        r is Ok <==> uuid_parse(text@) is Some,
        r matches Ok(v) ==> uuid_parse(text@) == Some(v),
        r matches Ok(v) ==> (forall|x: u128| text@ == uuid_text(x) ==> v == x),
        (exists|x: u128| text@ == uuid_text(x)) ==> r is Ok,
{
    uuid_parse_str(text)
}

/// A job identifier reads back from its text.
pub proof fn law_job_id_text_reads_back(id: u128, r: Result<u128, String>)
    requires
        r matches Ok(v) ==> (forall|x: u128| uuid_text(id) == uuid_text(x) ==> v == x),
        (exists|x: u128| uuid_text(id) == uuid_text(x)) ==> r is Ok,
    ensures
        r matches Ok(v) && v == id,
{
    assert(uuid_text(id) == uuid_text(id));
}

} // verus!
