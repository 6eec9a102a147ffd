//! The keyboard backlight of asusd (`xyz.ljones.Aura`). Its object path ends
//! in a hardware-specific device id, found by reading the children that
//! asusd's introspection data lists under the parent path.

use vstd::prelude::*;
use crate::text::{
    chars_of, decimal, find_char, first_index, lemma_first_index_bound, push_decimal, trim,
    trim_bounds,
};

verus! {

/// The object path under which asusd lists its aura devices.
pub const PARENT: &'static str = "/xyz/ljones/aura";

/// What an introspection line of a child node starts with.
pub const NODE_PREFIX: &'static str = "<node name=\"";

/// The name of a basic mode: the ordinals that asusd reports for this
/// keyboard, and "Mode N" for any other.
pub open spec fn led_mode_name(value: u32) -> Seq<char> {
    if value == 0 {
        "Static"@
    } else if value == 1 {
        "Breathe"@
    } else if value == 2 {
        "Rainbow"@
    } else if value == 3 {
        "Wave"@
    } else if value == 10 {
        "Pulse"@
    } else {
        "Mode "@ + decimal(value as nat)
    }
}

/// Best-effort label for a basic-mode ordinal.
pub fn led_mode_label(value: u32) -> (r: String)
    ensures
        r@ == led_mode_name(value),
{
    match value {
        0 => String::from_str("Static"),
        1 => String::from_str("Breathe"),
        2 => String::from_str("Rainbow"),
        3 => String::from_str("Wave"),
        10 => String::from_str("Pulse"),
        n => {
            let mut s = String::from_str("Mode ");
            push_decimal(&mut s, n);
            s
        },
    }
}

/// Whether `s` begins with `p`.
pub open spec fn starts_with(s: Seq<char>, p: Seq<char>) -> bool {
    s.len() >= p.len() && s.take(p.len() as int) == p
}

/// The child name that one introspection line gives: after trimming, the
/// line starts with the node prefix, and the name runs up to the next `"`.
pub open spec fn node_name_of_line(line: Seq<char>) -> Option<Seq<char>> {
    let t = trim(line);
    let p = NODE_PREFIX@;
    if starts_with(t, p) {
        let rest = t.skip(p.len() as int);
        let q = first_index(rest, '"');
        if q < rest.len() {
            Some(rest.take(q))
        } else {
            None
        }
    } else {
        None
    }
}

/// The first child name that any line of `xml` gives, lines taken in order.
pub open spec fn first_node_name(xml: Seq<char>) -> Option<Seq<char>>
    decreases xml.len(),
{
    let k = first_index(xml, '\n');
    match node_name_of_line(xml.take(k)) {
        Some(name) => Some(name),
        None => if k < xml.len() {
            proof {
                lemma_first_index_bound(xml, '\n');
            }
            first_node_name(xml.skip(k + 1))
        } else {
            None
        },
    }
}

/// The name that the line `v[lo..hi]` gives, as bounds into `v`.
fn node_name_in_line(v: &Vec<char>, prefix: &Vec<char>, lo: usize, hi: usize) -> (r: Option<
    (usize, usize),
>)
    requires
        lo <= hi <= v@.len(),
        prefix@ == NODE_PREFIX@,
    ensures
        match r {
            Some((a, b)) => {
                &&& lo <= a <= b <= hi
                &&& node_name_of_line(v@.subrange(lo as int, hi as int)) == Some(
                    v@.subrange(a as int, b as int),
                )
            },
            None => node_name_of_line(v@.subrange(lo as int, hi as int)) is None,
        },
{
    let ghost line = v@.subrange(lo as int, hi as int);
    let (a, b) = trim_bounds(v, lo, hi);
    let ghost t = v@.subrange(a as int, b as int);
    let plen = prefix.len();
    if b - a < plen {
        return None;
    }
    let mut i: usize = 0;
    while i < plen
        invariant
            plen == prefix@.len(),
            a + plen <= b <= v@.len(),
            i <= plen,
            t == v@.subrange(a as int, b as int),
            lo <= hi <= v@.len(),
            line == v@.subrange(lo as int, hi as int),
            trim(line) == t,
            prefix@ == NODE_PREFIX@,
            forall|k: int| 0 <= k < i ==> v@[a + k] == prefix@[k],
        decreases plen - i,
    {
        if v[a + i] != prefix[i] {
            assert(t.take(plen as int)[i as int] != prefix@[i as int]);
            assert(t.take(plen as int) != prefix@);
            return None;
        }
        i = i + 1;
    }
    assert(t.take(plen as int) =~= prefix@);
    let start = a + plen;
    let q = find_char(v, '"', start, b);
    assert(t.skip(plen as int) =~= v@.subrange(start as int, b as int));
    if q < b {
        assert(t.skip(plen as int).take(q - start) =~= v@.subrange(start as int, q as int));
        Some((start, q))
    } else {
        None
    }
}

/// The first child name that asusd's introspection data of the parent path
/// lists, or `None` where no line names a child.
pub fn first_node_name_of(xml: &str) -> (r: Option<String>)
    ensures
        match r {
            Some(name) => first_node_name(xml@) == Some(name@),
            None => first_node_name(xml@) is None,
        },
{
    let v = chars_of(xml);
    let prefix = chars_of(NODE_PREFIX);
    let n = v.len();
    let mut pos: usize = 0;
    assert(v@.subrange(0, n as int) =~= v@);
    loop
        invariant
            n == v@.len(),
            v@ == xml@,
            prefix@ == NODE_PREFIX@,
            pos <= n,
            first_node_name(xml@) == first_node_name(v@.subrange(pos as int, n as int)),
        decreases n - pos,
    {
        let ghost rest = v@.subrange(pos as int, n as int);
        let e = find_char(&v, '\n', pos, n);
        assert(rest.take(e - pos) =~= v@.subrange(pos as int, e as int));
        match node_name_in_line(&v, &prefix, pos, e) {
            Some((a, b)) => {
                return Some(String::from_str(xml.substring_char(a, b)));
            },
            None => {
                if e == n {
                    return None;
                }
                assert(rest.skip(e - pos + 1) =~= v@.subrange(e + 1, n as int));
                pos = e + 1;
            },
        }
    }
}

/// The object path of the aura device named `name`.
pub fn device_path(name: &str) -> (r: String)
    ensures
        r@ == PARENT@ + "/"@ + name@,
{
    let mut p = String::from_str(PARENT);
    p.append("/");
    p.append(name);
    p
}

/// The path of the first aura device that the introspection data `xml` of
/// the parent path lists, or `None` where it lists none.
pub fn device_path_from_introspection(xml: &str) -> (r: Option<String>)
    ensures
        match r {
            Some(path) => first_node_name(xml@) matches Some(name) && path@ == PARENT@ + "/"@
                + name,
            None => first_node_name(xml@) is None,
        },
{
    match first_node_name_of(xml) {
        Some(name) => Some(device_path(name.as_str())),
        None => None,
    }
}

} // verus!
