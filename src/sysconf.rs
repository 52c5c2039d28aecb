//! The system settings file, as written by the system menu.
//!
//! Layout: the magic `SCv0`; a big-endian 16-bit item count; one big-endian
//! 16-bit offset per item; then at each offset an item: a byte whose top
//! three bits give the item's kind and whose low five bits, plus one and
//! taken modulo 32, give the length of the name that follows; then the
//! value. Kinds: 1 a big array (16-bit length `n`, then `n + 1` bytes),
//! 2 a small array (8-bit length `n`, then `n + 1` bytes), 3 a byte,
//! 4 a 16-bit, 5 a 32-bit and 6 a 64-bit big-endian integer, 7 a boolean
//! byte. When a name occurs twice, the later item wins.

use vstd::prelude::*;
use vstd::string::StringSliceAdditionalSpecFns;
use vstd::utf8::valid_utf8;

verus! {

/// Path of the settings file on the internal storage, zero-terminated.
pub const SYSCONF_PATH: &'static str = "/shared2/sys/SYSCONF\0";

/// Size of the settings file in bytes.
pub const SYSCONF_SIZE: usize = 0x4000;

/// The code that `read_and_parse` reports for a file it cannot parse.
pub const PARSE_FAILURE: i32 = -103;

/// One setting's value.
#[derive(Debug)]
pub enum Item {
    BigArray(Vec<u8>),
    SmallArray(Vec<u8>),
    Byte(u8),
    Short(u16),
    Long(u32),
    LongLong(u64),
    Bool(bool),
}

/// A named setting.
#[derive(Debug)]
pub struct Entry {
    pub name: Vec<u8>,
    pub item: Item,
}

/// Why the settings file could not be parsed.
#[derive(Clone, Copy, Debug, PartialEq, Eq)]
pub enum SysconfError {
    /// The file does not start with `SCv0`.
    BadMagic,
    /// A table, name or value runs past the end of the file.
    Truncated,
    /// An item of kind 0.
    UnknownKind,
    /// A name that is not UTF-8.
    BadName,
}

/// The big-endian 16-bit number at `i`.
pub open spec fn be16(d: Seq<u8>, i: int) -> int {
    d[i] as int * 256 + d[i + 1] as int
}

/// The big-endian 32-bit number at `i`.
pub open spec fn be32(d: Seq<u8>, i: int) -> int {
    be16(d, i) * 0x1_0000 + be16(d, i + 2)
}

/// The big-endian 64-bit number at `i`.
pub open spec fn be64(d: Seq<u8>, i: int) -> int {
    be32(d, i) * 0x1_0000_0000 + be32(d, i + 4)
}

pub open spec fn magic_ok(d: Seq<u8>) -> bool {
    d.len() >= 4 && d[0] == 0x53 && d[1] == 0x43 && d[2] == 0x76 && d[3] == 0x30
}

/// Number of items.
pub open spec fn item_count(d: Seq<u8>) -> int {
    be16(d, 4)
}

/// Whether the count and the offset table lie inside the file.
pub open spec fn table_ok(d: Seq<u8>) -> bool {
    d.len() >= 6 && 6 + 2 * item_count(d) <= d.len()
}

/// Offset of item `k`.
pub open spec fn item_offset(d: Seq<u8>, k: int) -> int {
    be16(d, 6 + 2 * k)
}

/// Kind of the item at `o`.
pub open spec fn kind_at(d: Seq<u8>, o: int) -> int {
    d[o] as int / 32
}

/// Length of the name of the item at `o`.
pub open spec fn name_len_at(d: Seq<u8>, o: int) -> int {
    (d[o] as int + 1) % 32
}

/// Where the value of the item at `o` starts.
pub open spec fn value_at(d: Seq<u8>, o: int) -> int {
    o + 1 + name_len_at(d, o)
}

/// The name of the item at `o`.
pub open spec fn name_at(d: Seq<u8>, o: int) -> Seq<u8> {
    d.subrange(o + 1, value_at(d, o))
}

/// How many bytes at the start of a value give its size.
pub open spec fn size_prefix(kind: int) -> int {
    if kind == 1 {
        2
    } else if kind == 2 {
        1
    } else {
        0
    }
}

/// Size in bytes of a value of `kind` at `v`, length prefix included.
pub open spec fn value_len(d: Seq<u8>, kind: int, v: int) -> int {
    if kind == 1 {
        2 + be16(d, v) + 1
    } else if kind == 2 {
        1 + d[v] as int + 1
    } else if kind == 3 || kind == 7 {
        1
    } else if kind == 4 {
        2
    } else if kind == 5 {
        4
    } else {
        8
    }
}

/// What is wrong with the item at `o`, in the order the checks are made;
/// `None` when it is well formed.
pub open spec fn entry_error(d: Seq<u8>, o: int) -> Option<SysconfError> {
    let v = value_at(d, o);
    let kind = kind_at(d, o);
    if o >= d.len() {
        Some(SysconfError::Truncated)
    } else if v > d.len() {
        Some(SysconfError::Truncated)
    } else if !valid_utf8(name_at(d, o)) {
        Some(SysconfError::BadName)
    } else if kind == 0 {
        Some(SysconfError::UnknownKind)
    } else if v + size_prefix(kind) > d.len() {
        Some(SysconfError::Truncated)
    } else if v + value_len(d, kind, v) > d.len() {
        Some(SysconfError::Truncated)
    } else {
        None
    }
}

/// The error of the first bad item from item `k` on.
pub open spec fn first_error_from(d: Seq<u8>, k: int) -> Option<SysconfError>
    decreases item_count(d) - k,
{
    if k >= item_count(d) {
        None
    } else if entry_error(d, item_offset(d, k)) is Some {
        entry_error(d, item_offset(d, k))
    } else {
        first_error_from(d, k + 1)
    }
}

/// Why `d` cannot be parsed; `None` when it can.
pub open spec fn parse_error(d: Seq<u8>) -> Option<SysconfError> {
    if !magic_ok(d) {
        Some(SysconfError::BadMagic)
    } else if !table_ok(d) {
        Some(SysconfError::Truncated)
    } else {
        first_error_from(d, 0)
    }
}

/// Whether `item` is the value of `kind` at `v`.
pub open spec fn item_decoded(d: Seq<u8>, kind: int, v: int, item: Item) -> bool {
    if kind == 1 {
        item matches Item::BigArray(b) && b@ == d.subrange(v + 2, v + value_len(d, kind, v))
    } else if kind == 2 {
        item matches Item::SmallArray(b) && b@ == d.subrange(v + 1, v + value_len(d, kind, v))
    } else if kind == 3 {
        item matches Item::Byte(x) && x == d[v]
    } else if kind == 4 {
        item matches Item::Short(x) && x as int == be16(d, v)
    } else if kind == 5 {
        item matches Item::Long(x) && x as int == be32(d, v)
    } else if kind == 6 {
        item matches Item::LongLong(x) && x as int == be64(d, v)
    } else {
        item matches Item::Bool(x) && x == (d[v] != 0)
    }
}

/// Whether `e` is the item at `o`.
pub open spec fn entry_decoded(d: Seq<u8>, o: int, e: Entry) -> bool {
    e.name@ == name_at(d, o) && item_decoded(d, kind_at(d, o), value_at(d, o), e.item)
}

/// Whether `es` holds the items of `d`, in the order of its offset table.
pub open spec fn parsed_as(d: Seq<u8>, es: Seq<Entry>) -> bool {
    &&& es.len() == item_count(d)
    &&& forall|k: int| 0 <= k < item_count(d) ==> entry_decoded(d, item_offset(d, k), #[trigger] es[k])
}

/// Index of the last of the first `n` entries named `name`.
pub open spec fn last_named(es: Seq<Entry>, name: Seq<u8>, n: int) -> Option<int>
    decreases n,
{
    if n <= 0 {
        None
    } else if es[n - 1].name@ == name {
        Some(n - 1)
    } else {
        last_named(es, name, n - 1)
    }
}

/// The value of setting `name`: that of the last entry so named.
pub open spec fn setting(es: Seq<Entry>, name: Seq<u8>) -> Option<Item> {
    match last_named(es, name, es.len() as int) {
        Some(i) => Some(es[i].item),
        None => None,
    }
}

/// Relies on `std::str::from_utf8`: it accepts exactly the well-formed UTF-8
/// byte sequences.
#[verifier::external_body]
fn is_utf8(b: &[u8]) -> (r: bool)
    ensures
        r == valid_utf8(b@),
{
    std::str::from_utf8(b).is_ok()
}

fn read_be16(d: &[u8], i: usize) -> (r: u16)
    requires
        i + 2 <= d@.len(),
    ensures
        r as int == be16(d@, i as int),
{
    (d[i] as u16) * 256 + d[i + 1] as u16
}

fn read_be32(d: &[u8], i: usize) -> (r: u32)
    requires
        i + 4 <= d@.len() <= usize::MAX,
    ensures
        r as int == be32(d@, i as int),
{
    let hi = read_be16(d, i);
    let lo = read_be16(d, i + 2);
    (hi as u32) * 0x1_0000 + lo as u32
}

fn read_be64(d: &[u8], i: usize) -> (r: u64)
    requires
        i + 8 <= d@.len() <= usize::MAX,
    ensures
        r as int == be64(d@, i as int),
{
    let hi = read_be32(d, i);
    let lo = read_be32(d, i + 4);
    (hi as u64) * 0x1_0000_0000 + lo as u64
}

fn copy_bytes(d: &[u8], start: usize, end: usize) -> (r: Vec<u8>)
    requires
        start <= end <= d@.len(),
    ensures
        r@ == d@.subrange(start as int, end as int),
{
    let mut out: Vec<u8> = Vec::new();
    let mut i: usize = start;
    while i < end
        invariant
            start <= i <= end <= d@.len(),
            out@ == d@.subrange(start as int, i as int),
        decreases end - i,
    {
        out.push(d[i]);
        i = i + 1;
    }
    out
}

fn bytes_eq(a: &Vec<u8>, b: &[u8]) -> (r: bool)
    ensures
        r == (a@ == b@),
{
    if a.len() != b.len() {
        return false;
    }
    let mut i: usize = 0;
    while i < a.len()
        invariant
            a@.len() == b@.len(),
            i <= a@.len(),
            forall|j: int| 0 <= j < i ==> a@[j] == b@[j],
        decreases a@.len() - i,
    {
        if a[i] != b[i] {
            return false;
        }
        i = i + 1;
    }
    assert(a@ =~= b@);
    true
}

/// Decodes the item at offset `o`.
fn parse_entry(d: &[u8], o: usize) -> (r: Result<Entry, SysconfError>)
    requires
        o <= 0xffff,
    ensures
        entry_error(d@, o as int) matches Some(e) ==> r == Err::<Entry, SysconfError>(e),
        entry_error(d@, o as int) is None ==> (r matches Ok(en) && entry_decoded(d@, o as int, en)),
{
    if o >= d.len() {
        return Err(SysconfError::Truncated);
    }
    let t = d[o];
    let kind = t / 32;
    let v = o + 1 + (t as usize + 1) % 32;
    if v > d.len() {
        return Err(SysconfError::Truncated);
    }
    let name = copy_bytes(d, o + 1, v);
    if !is_utf8(name.as_slice()) {
        return Err(SysconfError::BadName);
    }
    let item = if kind == 0 {
        return Err(SysconfError::UnknownKind);
    } else if kind == 1 {
        if v + 2 > d.len() {
            return Err(SysconfError::Truncated);
        }
        let end = v + 2 + read_be16(d, v) as usize + 1;
        if end > d.len() {
            return Err(SysconfError::Truncated);
        }
        Item::BigArray(copy_bytes(d, v + 2, end))
    } else if kind == 2 {
        if v + 1 > d.len() {
            return Err(SysconfError::Truncated);
        }
        let end = v + 1 + d[v] as usize + 1;
        if end > d.len() {
            return Err(SysconfError::Truncated);
        }
        Item::SmallArray(copy_bytes(d, v + 1, end))
    } else if kind == 3 || kind == 7 {
        if v + 1 > d.len() {
            return Err(SysconfError::Truncated);
        }
        if kind == 3 {
            Item::Byte(d[v])
        } else {
            Item::Bool(d[v] != 0)
        }
    } else if kind == 4 {
        if v + 2 > d.len() {
            return Err(SysconfError::Truncated);
        }
        Item::Short(read_be16(d, v))
    } else if kind == 5 {
        if v + 4 > d.len() {
            return Err(SysconfError::Truncated);
        }
        Item::Long(read_be32(d, v))
    } else {
        if v + 8 > d.len() {
            return Err(SysconfError::Truncated);
        }
        Item::LongLong(read_be64(d, v))
    };
    Ok(Entry { name, item })
}

/// Which picture shape the user prefers.
#[derive(Clone, Copy, Debug, PartialEq, Eq)]
pub enum AspectRatio {
    A4_3,
    A16_9,
    Unknown,
}

/// Which scan mode the user prefers.
#[derive(Clone, Copy, Debug, PartialEq, Eq)]
pub enum Scan {
    Interlaced,
    Progressive,
    Unknown,
}

/// Which refresh rate the user prefers.
#[derive(Clone, Copy, Debug, PartialEq, Eq)]
pub enum RefreshRate {
    R50,
    R60,
}

impl AspectRatio {
    /// How the ratio is written: `4:3`, `16:9` or `unknown`.
    pub fn label(&self) -> &'static str {
        match self {
            AspectRatio::A4_3 => "4:3",
            AspectRatio::A16_9 => "16:9",
            AspectRatio::Unknown => "unknown",
        }
    }
}

impl Scan {
    /// How the mode is written: `interlaced`, `progressive` or `unknown`.
    pub fn label(&self) -> &'static str {
        match self {
            Scan::Interlaced => "interlaced",
            Scan::Progressive => "progressive",
            Scan::Unknown => "unknown",
        }
    }
}

impl RefreshRate {
    /// How the rate is written: `50 Hz` or `60 Hz`.
    pub fn label(&self) -> &'static str {
        match self {
            RefreshRate::R50 => "50 Hz",
            RefreshRate::R60 => "60 Hz",
        }
    }
}

/// The aspect ratio a setting stands for: a zero byte is 4:3, any other
/// byte 16:9; anything else is unknown.
pub open spec fn aspect_of(i: Option<Item>) -> AspectRatio {
    match i {
        Some(Item::Byte(v)) => if v == 0 {
            AspectRatio::A4_3
        } else {
            AspectRatio::A16_9
        },
        _ => AspectRatio::Unknown,
    }
}

/// The scan mode a setting stands for: a zero byte is interlaced, any other
/// byte progressive; anything else is unknown.
pub open spec fn scan_of(i: Option<Item>) -> Scan {
    match i {
        Some(Item::Byte(v)) => if v == 0 {
            Scan::Interlaced
        } else {
            Scan::Progressive
        },
        _ => Scan::Unknown,
    }
}

/// The refresh rate a setting stands for: a zero byte is 50 Hz, anything
/// else 60 Hz.
pub open spec fn rate_of(i: Option<Item>) -> RefreshRate {
    match i {
        Some(Item::Byte(v)) => if v == 0 {
            RefreshRate::R50
        } else {
            RefreshRate::R60
        },
        _ => RefreshRate::R60,
    }
}

/// The settings, in the order of the file's offset table.
pub struct Sysconf {
    entries: Vec<Entry>,
}

impl Sysconf {
    /// The entries, in the order of the file's offset table.
    pub closed spec fn entries(&self) -> Seq<Entry> {
        self.entries@
    }

    /// Parses the settings file `data`.
    pub fn parse(data: &[u8]) -> (r: Result<Sysconf, SysconfError>)
        ensures
            parse_error(data@) matches Some(e) ==> r == Err::<Sysconf, SysconfError>(e),
            parse_error(data@) is None ==> (r matches Ok(sc) && parsed_as(data@, sc.entries())),
    {
        if data.len() < 4 || data[0] != 0x53 || data[1] != 0x43 || data[2] != 0x76 || data[3]
            != 0x30 {
            return Err(SysconfError::BadMagic);
        }
        if data.len() < 6 {
            return Err(SysconfError::Truncated);
        }
        let count = read_be16(data, 4) as usize;
        if 6 + 2 * count > data.len() {
            return Err(SysconfError::Truncated);
        }
        assert(parse_error(data@) == first_error_from(data@, 0));
        let mut entries: Vec<Entry> = Vec::new();
        let mut k: usize = 0;
        while k < count
            invariant
                count == item_count(data@),
                table_ok(data@),
                parse_error(data@) == first_error_from(data@, 0),
                k <= count,
                entries@.len() == k,
                forall|j: int|
                    0 <= j < k ==> entry_decoded(data@, item_offset(data@, j), #[trigger] entries@[j]),
                first_error_from(data@, 0) == first_error_from(data@, k as int),
            decreases count - k,
        {
            let o = read_be16(data, 6 + 2 * k) as usize;
            match parse_entry(data, o) {
                Ok(e) => {
                    entries.push(e);
                },
                Err(e) => {
                    assert(first_error_from(data@, k as int) == entry_error(data@, o as int));
                    return Err(e);
                },
            }
            k = k + 1;
        }
        Ok(Sysconf { entries })
    }

    /// Index of the last entry named `key`.
    fn find(&self, key: &[u8]) -> (r: Option<usize>)
        ensures
            r matches Some(i) ==> i < self.entries().len() && last_named(self.entries(), key@, self.entries().len() as int)
                == Some(i as int),
            r is None ==> last_named(self.entries(), key@, self.entries().len() as int) is None,
    {
        let mut i: usize = self.entries.len();
        while i > 0
            invariant
                i <= self.entries@.len(),
                last_named(self.entries@, key@, self.entries@.len() as int) == last_named(
                    self.entries@,
                    key@,
                    i as int,
                ),
            decreases i,
        {
            if bytes_eq(&self.entries[i - 1].name, key) {
                return Some(i - 1);
            }
            i = i - 1;
        }
        None
    }

    /// Number of entries.
    pub fn len(&self) -> (r: usize)
        ensures
            r == self.entries().len(),
    {
        self.entries.len()
    }

    /// The value of setting `key`: that of the last entry so named.
    pub fn get(&self, key: &[u8]) -> (r: Option<&Item>)
        ensures
            r is Some <==> setting(self.entries(), key@) is Some,
            r matches Some(x) ==> setting(self.entries(), key@) == Some(*x),
    {
        match self.find(key) {
            Some(i) => Some(&self.entries[i].item),
            None => None,
        }
    }

    /// The byte value of setting `key`, if it is a byte.
    fn byte_setting(&self, key: &[u8]) -> (r: Option<u8>)
        ensures
            r == (match setting(self.entries(), key@) {
                Some(Item::Byte(v)) => Some(v),
                _ => None::<u8>,
            }),
    {
        match self.find(key) {
            Some(i) => match &self.entries[i].item {
                Item::Byte(v) => Some(*v),
                _ => None,
            },
            None => None,
        }
    }

    /// The preferred aspect ratio (setting `IPL.AR`).
    pub fn aspect_ratio(&self) -> (r: AspectRatio)
        ensures
            r == aspect_of(setting(self.entries(), "IPL.AR".spec_bytes())),
    {
        match self.byte_setting("IPL.AR".as_bytes()) {
            Some(v) => if v == 0 {
                AspectRatio::A4_3
            } else {
                AspectRatio::A16_9
            },
            None => AspectRatio::Unknown,
        }
    }

    /// Whether interlaced or progressive scan is preferred (setting `IPL.PGS`).
    pub fn progressive(&self) -> (r: Scan)
        ensures
            r == scan_of(setting(self.entries(), "IPL.PGS".spec_bytes())),
    {
        match self.byte_setting("IPL.PGS".as_bytes()) {
            Some(v) => if v == 0 {
                Scan::Interlaced
            } else {
                Scan::Progressive
            },
            None => Scan::Unknown,
        }
    }

    /// The preferred refresh rate (setting `IPL.E60`).
    pub fn refresh_rate(&self) -> (r: RefreshRate)
        ensures
            r == rate_of(setting(self.entries(), "IPL.E60".spec_bytes())),
    {
        match self.byte_setting("IPL.E60".as_bytes()) {
            Some(v) => if v == 0 {
                RefreshRate::R50
            } else {
                RefreshRate::R60
            },
            None => RefreshRate::R60,
        }
    }
}

/// Parses the settings file as read from storage; any failure is reported
/// as `PARSE_FAILURE`.
pub fn read_and_parse(contents: &[u8]) -> (r: Result<Sysconf, i32>)
    ensures
        parse_error(contents@) is Some ==> r == Err::<Sysconf, i32>(PARSE_FAILURE),
        parse_error(contents@) is None ==> (r matches Ok(sc) && parsed_as(contents@, sc.entries())),
{
    match Sysconf::parse(contents) {
        Ok(sc) => Ok(sc),
        Err(_) => Err(PARSE_FAILURE),
    }
}

} // verus!
