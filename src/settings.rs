//! The settings' plain-value logic: the stored camera ids, matching a camera
//! against them, and the text shown in a source drop-down.

use vstd::prelude::*;
use crate::text::{decimal, push_char, push_decimal};

verus! {

/// Which camera to open; a missing id matches any camera.
#[derive(Clone, Default, PartialEq, Eq, Debug)]
pub struct DeviceId {
    pub vendor_id: Option<u16>,
    pub product_id: Option<u16>,
    pub serial_number: Option<String>,
}

/// Whether a character is an ASCII decimal digit.
pub open spec fn is_digit(c: char) -> bool {
    48 <= c as int && c as int <= 57
}

/// The value of a run of decimal digits.
pub open spec fn digits_value(s: Seq<char>) -> nat
    decreases s.len(),
{
    if s.len() == 0 {
        0
    } else {
        digits_value(s.drop_last()) * 10 + (s.last() as int - 48) as nat
    }
}

/// The text without one leading plus sign.
pub open spec fn unsigned_part(s: Seq<char>) -> Seq<char> {
    if s.len() > 0 && s[0] == '+' {
        s.drop_first()
    } else {
        s
    }
}

/// Whether the text is a `u16` in decimal, as `str::parse` accepts it: an
/// optional plus sign, then at least one digit, with a value that fits.
pub open spec fn is_u16_text(s: Seq<char>) -> bool {
    let d = unsigned_part(s);
    &&& d.len() > 0
    &&& forall|i: int| 0 <= i < d.len() ==> is_digit(#[trigger] d[i])
    &&& digits_value(d) <= 65535
}

/// A stored id: empty means none, otherwise it must be a `u16`.
pub open spec fn id_of_text(s: Seq<char>) -> Result<Option<u16>, ()> {
    if s.len() == 0 {
        Ok(None)
    } else if is_u16_text(s) {
        Ok(Some(digits_value(unsigned_part(s)) as u16))
    } else {
        Err(())
    }
}

proof fn lemma_prefix_value_le(d: Seq<char>, k: int)
    requires
        0 <= k <= d.len(),
        forall|i: int| 0 <= i < d.len() ==> is_digit(#[trigger] d[i]),
    ensures
        digits_value(d.take(k)) <= digits_value(d),
    decreases d.len(),
{
    if k < d.len() {
        let init = d.drop_last();
        assert(init.take(k) =~= d.take(k));
        assert forall|i: int| 0 <= i < init.len() implies is_digit(#[trigger] init[i]) by {
            assert(init[i] == d[i]);
        }
        lemma_prefix_value_le(init, k);
    } else {
        assert(d.take(k) =~= d);
    }
}

/// Reads a stored id: `Ok(None)` for an empty text, `Ok(Some(n))` for the
/// decimal text of a `u16`, an error otherwise.
pub fn parse_id(s: &str) -> (r: Result<Option<u16>, ()>)
    ensures
        r == id_of_text(s@),
{
    let len = s.unicode_len();
    if len == 0 {
        return Ok(None);
    }
    let start: usize = if s.get_char(0) == '+' {
        1
    } else {
        0
    };
    let ghost d = unsigned_part(s@);
    assert(d =~= s@.subrange(start as int, len as int));
    if start == len {
        return Err(());
    }
    let mut acc: u32 = 0;
    let mut i: usize = start;
    while i < len
        invariant
            start <= i <= len,
            len == s@.len(),
            d == s@.subrange(start as int, len as int),
            d == unsigned_part(s@),
            acc <= 65535,
            acc == digits_value(d.take(i - start)),
            forall|j: int| 0 <= j < i - start ==> is_digit(#[trigger] d[j]),
        decreases len - i,
    {
        let c = s.get_char(i);
        let code = c as u32;
        assert(c == d[i - start]);
        if code < 48 || code > 57 {
            assert(!is_digit(d[i - start]));
            return Err(());
        }
        let v = code - 48;
        assert(d.take(i - start + 1).drop_last() =~= d.take(i - start));
        acc = acc * 10 + v;
        assert(acc == digits_value(d.take(i - start + 1)));
        if acc > 65535 {
            proof {
                if forall|j: int| 0 <= j < d.len() ==> is_digit(#[trigger] d[j]) {
                    lemma_prefix_value_le(d, i - start + 1);
                }
            }
            return Err(());
        }
        i += 1;
    }
    assert(d.take(i - start) =~= d);
    Ok(Some(acc as u16))
}

/// The id stored for a camera: both parts must read, else no id is kept.
pub fn device_id_from_fields(product_id: &str, vendor_id: &str) -> (r: DeviceId)
    ensures
        (id_of_text(product_id@), id_of_text(vendor_id@)) matches (Ok(p), Ok(v)) ==> r.product_id
            == p && r.vendor_id == v,
        !((id_of_text(product_id@), id_of_text(vendor_id@)) matches (Ok(p), Ok(v))) ==> r.product_id
            is None && r.vendor_id is None,
        r.serial_number is None,
{
    match (parse_id(product_id), parse_id(vendor_id)) {
        (Ok(p), Ok(v)) => DeviceId { vendor_id: v, product_id: p, serial_number: None },
        _ => DeviceId { vendor_id: None, product_id: None, serial_number: None },
    }
}

/// The text under which an id is stored: its decimal value, or nothing.
pub fn id_text(id: Option<u16>) -> (r: String)
    ensures
        r@ == match id {
            Some(n) => decimal(n as nat),
            None => Seq::<char>::empty(),
        },
{
    let mut s = String::new();
    if let Some(n) = id {
        push_decimal(&mut s, n as u32);
        assert(s@ =~= decimal(n as nat));
    }
    s
}

/// Whether a stored id part admits a device's id.
pub open spec fn id_admits(want: Option<u16>, have: u16) -> bool {
    match want {
        Some(w) => w == have,
        None => true,
    }
}

impl DeviceId {
    /// Whether a camera with these ids is the one asked for.
    pub fn matches_device(&self, vendor_id: u16, product_id: u16) -> (r: bool)
        ensures
            r == (id_admits(self.vendor_id, vendor_id) && id_admits(self.product_id, product_id)),
    {
        let v = match self.vendor_id {
            Some(w) => w == vendor_id,
            None => true,
        };
        let p = match self.product_id {
            Some(w) => w == product_id,
            None => true,
        };
        v && p
    }
}

/// The position of the first camera, given as (vendor id, product id), that
/// the id admits, or `usize::MAX` when none does.
pub fn find_device(id: &DeviceId, devices: &Vec<(u16, u16)>) -> (r: usize)
    ensures
        r < devices@.len() ==> id_admits(id.vendor_id, devices@[r as int].0) && id_admits(
            id.product_id,
            devices@[r as int].1,
        ),
        forall|j: int|
            0 <= j < devices@.len() && j < r ==> !(id_admits(id.vendor_id, #[trigger] devices@[j].0)
                && id_admits(id.product_id, devices@[j].1)),
        r < devices@.len() || r == usize::MAX,
{
    let mut i: usize = 0;
    while i < devices.len()
        invariant
            i <= devices@.len(),
            forall|j: int|
                0 <= j < i ==> !(id_admits(id.vendor_id, #[trigger] devices@[j].0) && id_admits(
                    id.product_id,
                    devices@[j].1,
                )),
        decreases devices.len() - i,
    {
        if id.matches_device(devices[i].0, devices[i].1) {
            return i;
        }
        i += 1;
    }
    usize::MAX
}

/// The position of the first name equal to `name`, or `usize::MAX` when
/// there is none.
pub fn find_name(names: &Vec<String>, name: &String) -> (r: usize)
    ensures
        r < names@.len() ==> names@[r as int]@ == name@,
        forall|j: int| 0 <= j < names@.len() && j < r ==> (#[trigger] names@[j])@ != name@,
        r < names@.len() || r == usize::MAX,
{
    let mut i: usize = 0;
    while i < names.len()
        invariant
            i <= names@.len(),
            forall|j: int| 0 <= j < i ==> (#[trigger] names@[j])@ != name@,
        decreases names.len() - i,
    {
        if names[i] == *name {
            return i;
        }
        i += 1;
    }
    usize::MAX
}

/// How many characters a drop-down shows.
pub const LABEL_WIDTH: usize = 40;

/// A text fitted to the drop-down: cut to its first characters with an
/// ellipsis after them, or padded with spaces.
pub open spec fn fitted(t: Seq<char>) -> Seq<char> {
    if t.len() > LABEL_WIDTH {
        t.take(LABEL_WIDTH as int).push('\u{2026}')
    } else {
        t + Seq::new((LABEL_WIDTH - t.len()) as nat, |i: int| ' ')
    }
}

/// Fits a text to the width of a drop-down.
pub fn fit_label(text: &str) -> (r: String)
    ensures
        r@ == fitted(text@),
{
    let n = text.unicode_len();
    if n > LABEL_WIDTH {
        let mut s = String::from_str(text.substring_char(0, LABEL_WIDTH));
        push_char(&mut s, '\u{2026}');
        s
    } else {
        let mut s = String::from_str(text);
        let mut k: usize = n;
        while k < LABEL_WIDTH
            invariant
                n <= k <= LABEL_WIDTH,
                n == text@.len(),
                s@ == text@ + Seq::new((k - n) as nat, |i: int| ' '),
            decreases LABEL_WIDTH - k,
        {
            push_char(&mut s, ' ');
            k += 1;
            assert(s@ =~= text@ + Seq::new((k - n) as nat, |i: int| ' '));
        }
        s
    }
}

/// The text of the entry at `i`, or `fallback` when `i` is `usize::MAX`.
pub fn entry_text(labels: &Vec<String>, i: usize, fallback: &str) -> (r: String)
    requires
        i == usize::MAX || i < labels@.len(),
    ensures
        r@ == if i == usize::MAX {
            fallback@
        } else {
            labels@[i as int]@
        },
{
    if i == usize::MAX {
        String::from_str(fallback)
    } else {
        labels[i].clone()
    }
}

/// Whether the settings window is open after a frame in which Alt+S (which
/// toggles it) and Escape (which closes it) may have been pressed.
pub fn next_open(open: bool, toggle: bool, escape: bool) -> (r: bool)
    ensures
        r == ((open != toggle) && !escape),
{
    let o = if toggle {
        !open
    } else {
        open
    };
    o && !escape
}

} // verus!
