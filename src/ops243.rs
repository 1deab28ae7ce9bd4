use vstd::prelude::*;
use vstd::string::StringSliceAdditionalSpecFns;

use crate::shot::{Direction, SpeedReading};

verus! {

/// The sensor signs its speeds: negative is moving away (outbound), positive
/// toward it (inbound). Zero counts as outbound.
pub open spec fn direction_of(signed_speed: int) -> Direction {
    if signed_speed > 0 {
        Direction::Inbound
    } else {
        Direction::Outbound
    }
}

/// The magnitude of a signed speed.
pub open spec fn abs(v: int) -> int {
    if v < 0 {
        -v
    } else {
        v
    }
}

/// A reading from the sensor's signed speed (hundredths of a mph), its
/// optional magnitude and the event time (microseconds).
pub fn reading_from_signed(signed_speed: i32, magnitude: Option<u32>, timestamp: u64) -> (r:
    SpeedReading)
    ensures
        r.speed as int == abs(signed_speed as int),
        r.direction == direction_of(signed_speed as int),
        r.magnitude == magnitude,
        r.timestamp == timestamp,
{
    let direction = if signed_speed > 0 {
        Direction::Inbound
    } else {
        Direction::Outbound
    };
    let speed: u32 = if signed_speed < 0 {
        (0i64 - signed_speed as i64) as u32
    } else {
        signed_speed as u32
    };
    SpeedReading { speed, direction, magnitude, timestamp }
}

/// Whether a byte of a command is one after which the sensor expects a
/// carriage return: `=`, `>` or `<`.
pub open spec fn is_setting_byte(b: u8) -> bool {
    b == 61u8 || b == 62u8 || b == 60u8
}

/// Whether a command must be followed by a carriage return: it sets a value
/// (holds `=`, `>` or `<`).
pub fn needs_carriage_return(cmd: &str) -> (r: bool)
    ensures
        r == exists|i: int| 0 <= i < cmd.spec_bytes().len() && is_setting_byte(#[trigger] cmd.spec_bytes()[i]),
{
    let bytes = cmd.as_bytes();
    let mut i: usize = 0;
    while i < bytes.len()
        invariant
            bytes@ == cmd.spec_bytes(),
            i <= bytes@.len(),
            forall|j: int| 0 <= j < i ==> !is_setting_byte(#[trigger] bytes@[j]),
        decreases bytes@.len() - i,
    {
        if bytes[i] == 61u8 || bytes[i] == 62u8 || bytes[i] == 60u8 {
            return true;
        }
        i = i + 1;
    }
    false
}

/// The index of the first line feed in `data`, if any.
pub fn line_end(data: &[u8]) -> (r: Option<usize>)
    ensures
        match r {
            Some(i) => i < data@.len() && data@[i as int] == 10u8 && forall|j: int|
                0 <= j < i ==> #[trigger] data@[j] != 10u8,
            None => forall|j: int| 0 <= j < data@.len() ==> #[trigger] data@[j] != 10u8,
        },
{
    let mut i: usize = 0;
    while i < data.len()
        invariant
            i <= data@.len(),
            forall|j: int| 0 <= j < i ==> #[trigger] data@[j] != 10u8,
        decreases data@.len() - i,
    {
        if data[i] == 10u8 {
            return Some(i);
        }
        i = i + 1;
    }
    None
}

/// The bytes of `/dev/`.
pub open spec fn dev_prefix() -> Seq<u8> {
    seq![47u8, 100u8, 101u8, 118u8, 47u8]
}

/// A port pattern without any leading `/dev/` prefixes.
pub open spec fn strip_dev(p: Seq<u8>) -> Seq<u8>
    decreases p.len(),
{
    if p.len() >= 5 && p.take(5) == dev_prefix() {
        strip_dev(p.skip(5))
    } else {
        p
    }
}

/// Whether `needle` occurs in `hay` starting at `i`.
pub open spec fn occurs_at(hay: Seq<u8>, needle: Seq<u8>, i: int) -> bool {
    &&& 0 <= i
    &&& i + needle.len() <= hay.len()
    &&& forall|k: int| 0 <= k < needle.len() ==> hay[i + k] == #[trigger] needle[k]
}

/// Whether `needle` occurs anywhere in `hay`.
pub open spec fn contains_bytes(hay: Seq<u8>, needle: Seq<u8>) -> bool {
    exists|i: int| occurs_at(hay, needle, i)
}

/// Whether a port name holds one of the patterns, each without its `/dev/`
/// prefix.
pub open spec fn matches_any(name: Seq<u8>, patterns: Seq<Vec<u8>>) -> bool {
    exists|j: int| 0 <= j < patterns.len() && contains_bytes(name, strip_dev(#[trigger] patterns[j]@))
}

/// Whether port `i` is the first whose name holds one of the patterns.
pub open spec fn first_match(ports: Seq<Vec<u8>>, patterns: Seq<Vec<u8>>, i: int) -> bool {
    &&& 0 <= i < ports.len()
    &&& matches_any(ports[i]@, patterns)
    &&& forall|k: int| 0 <= k < i ==> !matches_any(#[trigger] ports[k]@, patterns)
}

/// The port to open: the first whose name holds one of the usual radar port
/// patterns, else the first port at all.
pub open spec fn chosen_port(ports: Seq<Vec<u8>>, patterns: Seq<Vec<u8>>) -> Option<int> {
    if exists|i: int| first_match(ports, patterns, i) {
        Some(choose|i: int| first_match(ports, patterns, i))
    } else if ports.len() > 0 {
        Some(0)
    } else {
        None
    }
}

/// A pattern without its leading `/dev/` prefixes.
fn strip_dev_prefix(p: &Vec<u8>) -> (r: Vec<u8>)
    ensures
        r@ == strip_dev(p@),
{
    let mut start: usize = 0;
    proof {
        assert(p@.skip(0) == p@);
    }
    while p.len() >= 5 && start <= p.len() - 5 && p[start] == 47u8 && p[start + 1] == 100u8
        && p[start + 2] == 101u8 && p[start + 3] == 118u8 && p[start + 4] == 47u8
        invariant
            start <= p@.len(),
            strip_dev(p@) == strip_dev(p@.skip(start as int)),
        decreases p@.len() - start,
    {
        proof {
            let rest = p@.skip(start as int);
            assert(rest.take(5) == dev_prefix());
            assert(rest.skip(5) == p@.skip(start as int + 5));
        }
        start = start + 5;
    }
    proof {
        let rest = p@.skip(start as int);
        if rest.len() >= 5 && rest.take(5) == dev_prefix() {
            assert(rest.take(5)[0] == dev_prefix()[0]);
            assert(rest.take(5)[1] == dev_prefix()[1]);
            assert(rest.take(5)[2] == dev_prefix()[2]);
            assert(rest.take(5)[3] == dev_prefix()[3]);
            assert(rest.take(5)[4] == dev_prefix()[4]);
        }
    }
    let mut r: Vec<u8> = Vec::new();
    let mut i: usize = start;
    while i < p.len()
        invariant
            start <= i <= p@.len(),
            r@ == p@.subrange(start as int, i as int),
        decreases p@.len() - i,
    {
        r.push(p[i]);
        i = i + 1;
    }
    proof {
        assert(r@ == p@.skip(start as int));
    }
    r
}

/// Whether `needle` occurs in `hay`.
pub fn find_bytes(hay: &Vec<u8>, needle: &Vec<u8>) -> (r: bool)
    ensures
        r == contains_bytes(hay@, needle@),
{
    if needle.len() > hay.len() {
        proof {
            assert forall|i: int| !occurs_at(hay@, needle@, i) by {}
        }
        return false;
    }
    if needle.len() == 0 {
        assert(occurs_at(hay@, needle@, 0));
        return true;
    }
    let hay_len = hay.len();
    let last = hay_len - needle.len();
    let mut i: usize = 0;
    while i <= last
        invariant
            needle@.len() <= hay@.len(),
            last == hay@.len() - needle@.len(),
            needle@.len() > 0,
            hay_len == hay@.len(),
            i <= last + 1,
            forall|j: int| 0 <= j < i ==> !occurs_at(hay@, needle@, j),
        decreases last + 1 - i,
    {
        let mut k: usize = 0;
        let mut same = true;
        while k < needle.len()
            invariant
                i <= last,
                hay_len == hay@.len(),
                needle@.len() <= hay@.len(),
                last == hay@.len() - needle@.len(),
                k <= needle@.len(),
                same == forall|m: int| 0 <= m < k ==> hay@[i + m] == #[trigger] needle@[m],
            decreases needle@.len() - k,
        {
            if hay[i + k] != needle[k] {
                same = false;
            }
            k = k + 1;
        }
        if same {
            assert(occurs_at(hay@, needle@, i as int));
            return true;
        }
        i = i + 1;
    }
    proof {
        assert forall|j: int| !occurs_at(hay@, needle@, j) by {
            if 0 <= j < i {
            }
        }
    }
    false
}

/// Whether a port name holds one of the patterns, given the patterns with
/// their prefixes already stripped.
fn port_matches(name: &Vec<u8>, stripped: &Vec<Vec<u8>>, patterns: Ghost<Seq<Vec<u8>>>) -> (r:
    bool)
    requires
        stripped@.len() == patterns@.len(),
        forall|q: int| 0 <= q < stripped@.len() ==> (#[trigger] stripped@[q])@ == strip_dev(patterns@[q]@),
    ensures
        r == matches_any(name@, patterns@),
{
    let mut m: usize = 0;
    while m < stripped.len()
        invariant
            m <= stripped@.len(),
            stripped@.len() == patterns@.len(),
            forall|q: int| 0 <= q < stripped@.len() ==> (#[trigger] stripped@[q])@ == strip_dev(patterns@[q]@),
            forall|q: int| 0 <= q < m ==> !contains_bytes(name@, strip_dev(#[trigger] patterns@[q]@)),
        decreases stripped@.len() - m,
    {
        if find_bytes(name, &stripped[m]) {
            return true;
        }
        m = m + 1;
    }
    false
}

/// Picks the port to open among the available port names, see
/// `chosen_port`.
pub fn select_port(ports: &Vec<Vec<u8>>, patterns: &Vec<Vec<u8>>) -> (r: Option<usize>)
    ensures
        match chosen_port(ports@, patterns@) {
            Some(i) => r == Some(i as usize),
            None => r is None,
        },
{
    let mut stripped: Vec<Vec<u8>> = Vec::new();
    let mut j: usize = 0;
    while j < patterns.len()
        invariant
            j <= patterns@.len(),
            stripped@.len() == j,
            forall|m: int| 0 <= m < j ==> (#[trigger] stripped@[m])@ == strip_dev(patterns@[m]@),
        decreases patterns@.len() - j,
    {
        stripped.push(strip_dev_prefix(&patterns[j]));
        j = j + 1;
    }
    let mut i: usize = 0;
    while i < ports.len()
        invariant
            i <= ports@.len(),
            stripped@.len() == patterns@.len(),
            forall|m: int| 0 <= m < stripped@.len() ==> (#[trigger] stripped@[m])@ == strip_dev(patterns@[m]@),
            forall|k: int| 0 <= k < i ==> !matches_any(#[trigger] ports@[k]@, patterns@),
        decreases ports@.len() - i,
    {
        if port_matches(&ports[i], &stripped, Ghost(patterns@)) {
            proof {
                assert(first_match(ports@, patterns@, i as int));
                let c = choose|x: int| first_match(ports@, patterns@, x);
                if c < i {
                } else if c > i {
                    assert(!matches_any(ports@[i as int]@, patterns@));
                }
            }
            return Some(i);
        }
        i = i + 1;
    }
    proof {
        assert forall|x: int| !first_match(ports@, patterns@, x) by {
            if 0 <= x < ports@.len() {
                assert(!matches_any(ports@[x]@, patterns@));
            }
        }
    }
    if ports.len() > 0 {
        Some(0)
    } else {
        None
    }
}

} // verus!
