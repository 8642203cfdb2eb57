//! The initial ramdisk: a tape archive laid out in 512-byte blocks. Each
//! file is one header block — fixed-offset, NUL-padded ASCII fields, sizes
//! in octal — followed by its data rounded up to whole blocks; a block of
//! zeros ends the archive. The unverified shell hands the module's raw
//! bytes in; everything here is verified parsing.

use crate::logger::{appended, Level, Logger};
use crate::text::{
    chars_of, dec_pad2, dec_seq, push_char, str_eq, u64_to_dec, u64_to_dec_pad2,
};
use vstd::prelude::*;

verus! {

/// Size of one archive block in bytes.
pub const BLOCK_SIZE: usize = 512;

/// The field bytes with trailing NUL padding removed.
pub open spec fn trim_nuls(s: Seq<u8>) -> Seq<u8>
    decreases s.len(),
{
    if s.len() == 0 || s.last() != 0 {
        s
    } else {
        trim_nuls(s.drop_last())
    }
}

/// Every byte is ASCII.
pub open spec fn is_ascii_bytes(s: Seq<u8>) -> bool {
    forall|i: int| 0 <= i < s.len() ==> (#[trigger] s[i]) < 128
}

/// Every byte is an ASCII decimal digit.
pub open spec fn all_dec(s: Seq<u8>) -> bool {
    forall|i: int| 0 <= i < s.len() ==> 48 <= #[trigger] s[i] <= 57
}

/// Every byte is an ASCII octal digit.
pub open spec fn all_oct(s: Seq<u8>) -> bool {
    forall|i: int| 0 <= i < s.len() ==> 48 <= #[trigger] s[i] <= 55
}

/// The number the decimal digit bytes spell, most significant first.
pub open spec fn dec_value(s: Seq<u8>) -> nat
    decreases s.len(),
{
    if s.len() == 0 {
        0
    } else {
        dec_value(s.drop_last()) * 10 + (s.last() - 48) as nat
    }
}

/// The number the octal digit bytes spell, most significant first.
pub open spec fn oct_value(s: Seq<u8>) -> nat
    decreases s.len(),
{
    if s.len() == 0 {
        0
    } else {
        oct_value(s.drop_last()) * 8 + (s.last() - 48) as nat
    }
}

/// The bytes of one fixed-offset header field.
pub open spec fn field(bytes: Seq<u8>, pos: int, off: int, len: int) -> Seq<u8> {
    bytes.subrange(pos + off, pos + off + len)
}

/// The characters a string field holds after trimming its NUL padding.
pub open spec fn string_field_chars(f: Seq<u8>) -> Seq<char> {
    chars_of(trim_nuls(f))
}

/// What a numeric (decimal) field parses to: its value when the trimmed
/// bytes are a nonempty all-decimal numeral that fits, and zero otherwise.
pub open spec fn integer_field_value(f: Seq<u8>) -> u32 {
    let t = trim_nuls(f);
    if t.len() > 0 && all_dec(t) && dec_value(t) <= u32::MAX {
        dec_value(t) as u32
    } else {
        0
    }
}

/// An octal field the archive format accepts: nonempty after trimming, all
/// octal digits, and its value fits the field's type.
pub open spec fn wf_octal(f: Seq<u8>) -> bool {
    let t = trim_nuls(f);
    &&& t.len() > 0
    &&& all_oct(t)
    &&& oct_value(t) <= u32::MAX
}

/// The value of a well-formed octal field.
pub open spec fn octal_field_value(f: Seq<u8>) -> u32 {
    oct_value(trim_nuls(f)) as u32
}

/// A digit numeral's value only grows as digits are appended.
proof fn lemma_dec_prefix_le(s: Seq<u8>, k: int)
    requires
        0 <= k <= s.len(),
    ensures
        dec_value(s.take(k)) <= dec_value(s),
    decreases s.len() - k,
{
    if k == s.len() {
        assert(s.take(k) =~= s);
    } else {
        assert(s.take(k + 1).drop_last() =~= s.take(k));
        assert(dec_value(s.take(k + 1)) == dec_value(s.take(k)) * 10 + (s.take(k + 1).last()
            - 48) as nat);
        lemma_dec_prefix_le(s, k + 1);
    }
}

/// A digit numeral's value only grows as digits are appended.
proof fn lemma_oct_prefix_le(s: Seq<u8>, k: int)
    requires
        0 <= k <= s.len(),
    ensures
        oct_value(s.take(k)) <= oct_value(s),
    decreases s.len() - k,
{
    if k == s.len() {
        assert(s.take(k) =~= s);
    } else {
        assert(s.take(k + 1).drop_last() =~= s.take(k));
        assert(oct_value(s.take(k + 1)) == oct_value(s.take(k)) * 8 + (s.take(k + 1).last()
            - 48) as nat);
        lemma_oct_prefix_le(s, k + 1);
    }
}

/// A header block the archive format accepts: the string fields are ASCII
/// and the numeric octal fields are well-formed.
pub open spec fn wf_header_at(bytes: Seq<u8>, pos: int) -> bool {
    &&& pos + 512 <= bytes.len()
    &&& is_ascii_bytes(field(bytes, pos, 0, 100))
    &&& wf_octal(field(bytes, pos, 108, 8))
    &&& wf_octal(field(bytes, pos, 116, 8))
    &&& wf_octal(field(bytes, pos, 124, 12))
    &&& wf_octal(field(bytes, pos, 136, 12))
    &&& is_ascii_bytes(field(bytes, pos, 148, 8))
    &&& is_ascii_bytes(field(bytes, pos, 157, 100))
    &&& is_ascii_bytes(field(bytes, pos, 257, 6))
    &&& is_ascii_bytes(field(bytes, pos, 263, 2))
    &&& is_ascii_bytes(field(bytes, pos, 265, 32))
    &&& is_ascii_bytes(field(bytes, pos, 297, 32))
    &&& is_ascii_bytes(field(bytes, pos, 345, 155))
}

/// The data size the header block at `pos` declares.
pub open spec fn header_size(bytes: Seq<u8>, pos: int) -> nat {
    octal_field_value(field(bytes, pos, 124, 12)) as nat
}

/// The bytes the data occupies on tape: rounded up to whole blocks.
pub open spec fn data_blocks_len(size: nat) -> nat {
    512 * ((size + 511) / 512)
}

/// Where the next header block starts: past this header block and the data
/// blocks it declares.
pub open spec fn next_header_pos(bytes: Seq<u8>, pos: int) -> int {
    pos + 512 + data_blocks_len(header_size(bytes, pos))
}

/// The block at `pos` is all zeros: the end-of-archive marker.
pub open spec fn is_zero_block(bytes: Seq<u8>, pos: int) -> bool {
    &&& pos + 512 <= bytes.len()
    &&& forall|i: int| pos <= i < pos + 512 ==> (#[trigger] bytes[i]) == 0
}

/// A well-formed archive tail starting at `pos`: either the end marker, or
/// a well-formed header block whose declared data fits, followed by another
/// well-formed tail.
pub open spec fn wf_archive_at(bytes: Seq<u8>, pos: int) -> bool
    decreases bytes.len() - pos,
{
    &&& 0 <= pos
    &&& pos + 512 <= bytes.len()
    &&& (!is_zero_block(bytes, pos) ==> {
        &&& wf_header_at(bytes, pos)
        &&& next_header_pos(bytes, pos) <= bytes.len()
        &&& wf_archive_at(bytes, next_header_pos(bytes, pos))
    })
}

/// The positions of the header blocks of a well-formed archive tail, in
/// order.
pub open spec fn header_positions(bytes: Seq<u8>, pos: int) -> Seq<int>
    decreases bytes.len() - pos,
{
    if wf_archive_at(bytes, pos) && !is_zero_block(bytes, pos) {
        seq![pos] + header_positions(bytes, next_header_pos(bytes, pos))
    } else {
        Seq::empty()
    }
}

/// Identity and metadata of one archived file, as the header block spells
/// them.
pub struct Header {
    pub name: String,
    pub mode: u32,
    pub user_id: u32,
    pub group_id: u32,
    pub size: u32,
    pub mtime: u32,
    pub checksum: String,
    pub flag: u32,
    pub linked: String,
    pub indicator: String,
    pub version: String,
    pub username: String,
    pub group: String,
    pub major: u32,
    pub minor: u32,
    pub prefix: String,
}

/// One archived file: its header and its data bytes.
pub struct File {
    pub header: Header,
    pub data: Vec<u8>,
}

/// The permission triple one mode digit spells: read, write, execute.
pub open spec fn permission_chars(digit: u32) -> Seq<char> {
    seq![
        if digit & 0b100 == 0b100 {
            'r'
        } else {
            '-'
        },
        if digit & 0b010 == 0b010 {
            'w'
        } else {
            '-'
        },
        if digit & 0b001 == 0b001 {
            'x'
        } else {
            '-'
        },
    ]
}

/// The Gregorian leap-year rule.
pub open spec fn is_leap_year(y: nat) -> bool {
    (y % 4 == 0 && y % 100 != 0) || y % 400 == 0
}

/// Days in year `y`.
pub open spec fn days_in_year(y: nat) -> nat {
    if is_leap_year(y) {
        366
    } else {
        365
    }
}

/// Seconds in year `y`.
pub open spec fn seconds_in_year(y: nat) -> nat {
    86400 * days_in_year(y)
}

/// Consume whole years starting at `year`: the year the instant falls in,
/// and the seconds left within it.
pub open spec fn split_year(seconds: nat, year: nat) -> (nat, nat)
    decreases seconds,
{
    if seconds < seconds_in_year(year) {
        (year, seconds)
    } else {
        split_year((seconds - seconds_in_year(year)) as nat, year + 1)
    }
}

/// Days in month `m` (1-based) of year `y`.
pub open spec fn days_in_month(y: nat, m: nat) -> nat {
    if m == 2 {
        if is_leap_year(y) {
            29
        } else {
            28
        }
    } else if m == 4 || m == 6 || m == 9 || m == 11 {
        30
    } else {
        31
    }
}

/// Consume whole months of year `y` starting at month `m`: the month the
/// instant falls in, and the seconds left within it.
pub open spec fn split_month(seconds: nat, y: nat, m: nat) -> (nat, nat)
    decreases 12 - m,
{
    if m >= 12 || seconds < days_in_month(y, m) * 86400 {
        (m, seconds)
    } else {
        split_month((seconds - days_in_month(y, m) * 86400) as nat, y, m + 1)
    }
}

/// Days in months `m..=12` of year `y`.
pub open spec fn days_from_month(y: nat, m: nat) -> nat
    decreases 13 - m,
{
    if m > 12 {
        0
    } else {
        days_in_month(y, m) + days_from_month(y, m + 1)
    }
}

/// The months of a year add up to the year's days.
proof fn lemma_days_from_month_total(y: nat)
    ensures
        days_from_month(y, 1) == days_in_year(y),
{
    reveal_with_fuel(days_from_month, 14);
}

/// A modification instant rendered to minute resolution:
/// `year-month-day hour:minute`, month through minute zero-padded to two
/// digits.
pub open spec fn timestamp_chars(t: nat) -> Seq<char> {
    let ys = split_year(t, 1970);
    let ms = split_month(ys.1, ys.0, 1);
    let day = ms.1 / 86400 + 1;
    let rem = ms.1 % 86400;
    let hour = rem / 3600;
    let minute = (rem % 3600) / 60;
    dec_seq(ys.0) + "-"@ + dec_pad2(ms.0) + "-"@ + dec_pad2(day) + " "@ + dec_pad2(hour) + ":"@
        + dec_pad2(minute)
}

/// The value of one decimal digit character.
pub open spec fn digit_val(c: char) -> nat {
    if c == '0' {
        0
    } else if c == '1' {
        1
    } else if c == '2' {
        2
    } else if c == '3' {
        3
    } else if c == '4' {
        4
    } else if c == '5' {
        5
    } else if c == '6' {
        6
    } else if c == '7' {
        7
    } else if c == '8' {
        8
    } else {
        9
    }
}

/// The power of ten of `n`'s leading decimal digit.
pub open spec fn leading_pow10(n: nat) -> nat
    decreases n,
{
    if n < 10 {
        1
    } else {
        10 * leading_pow10(n / 10)
    }
}

/// The leading power of ten is at least one and at most the number itself
/// (for positive numbers).
proof fn lemma_leading_pow10_bounds(n: nat)
    ensures
        leading_pow10(n) >= 1,
        n >= 1 ==> leading_pow10(n) <= n,
        n >= 10 ==> leading_pow10(n) >= 10,
        n >= 100 ==> leading_pow10(n) >= 100,
    decreases n,
{
    if n >= 10 {
        lemma_leading_pow10_bounds(n / 10);
        assert(leading_pow10(n) == 10 * leading_pow10(n / 10));
        assert(10 * leading_pow10(n / 10) <= 10 * (n / 10)) by (nonlinear_arith)
            requires
                leading_pow10(n / 10) <= n / 10,
        ;
        assert(10 * (n / 10) <= n) by (nonlinear_arith);
        if n >= 100 {
            assert(n / 10 >= 10);
        }
    }
}

/// The first three decimal digits of a file mode of at least three digits.
pub open spec fn mode_digit(mode: nat, i: nat) -> nat {
    let p = leading_pow10(mode);
    if i == 0 {
        (mode / p) % 10
    } else if i == 1 {
        (mode / (p / 10)) % 10
    } else {
        (mode / (p / 100)) % 10
    }
}

/// The directory listing line of one archived file: type flag, the three
/// permission triples of the mode's first three digits, owner and group,
/// size, modification instant, and name.
pub open spec fn file_line(h: Header) -> Seq<char> {
    let flag = if h.flag == 5 {
        seq!['d']
    } else {
        seq!['-']
    };
    flag + permission_chars(mode_digit(h.mode as nat, 0) as u32) + permission_chars(
        mode_digit(h.mode as nat, 1) as u32,
    ) + permission_chars(mode_digit(h.mode as nat, 2) as u32) + " "@ + h.username@ + "/"@
        + h.group@ + " "@ + dec_seq(h.size as nat) + " "@ + timestamp_chars(h.mtime as nat) + " "@
        + h.name@
}

/// The header's fields hold exactly what the header block at `pos` spells.
pub open spec fn header_matches(h: Header, bytes: Seq<u8>, pos: int) -> bool {
    &&& h.name@ == string_field_chars(field(bytes, pos, 0, 100))
    &&& h.mode == integer_field_value(field(bytes, pos, 100, 8))
    &&& h.user_id == octal_field_value(field(bytes, pos, 108, 8))
    &&& h.group_id == octal_field_value(field(bytes, pos, 116, 8))
    &&& h.size == octal_field_value(field(bytes, pos, 124, 12))
    &&& h.mtime == octal_field_value(field(bytes, pos, 136, 12))
    &&& h.checksum@ == string_field_chars(field(bytes, pos, 148, 8))
    &&& h.flag == integer_field_value(field(bytes, pos, 156, 1))
    &&& h.linked@ == string_field_chars(field(bytes, pos, 157, 100))
    &&& h.indicator@ == string_field_chars(field(bytes, pos, 257, 6))
    &&& h.version@ == string_field_chars(field(bytes, pos, 263, 2))
    &&& h.username@ == string_field_chars(field(bytes, pos, 265, 32))
    &&& h.group@ == string_field_chars(field(bytes, pos, 297, 32))
    &&& h.major == integer_field_value(field(bytes, pos, 329, 8))
    &&& h.minor == integer_field_value(field(bytes, pos, 337, 8))
    &&& h.prefix@ == string_field_chars(field(bytes, pos, 345, 155))
}

/// The file holds exactly the header at `pos` and the data bytes the
/// header declares.
pub open spec fn file_matches(f: File, bytes: Seq<u8>, pos: int) -> bool {
    &&& header_matches(f.header, bytes, pos)
    &&& f.data@ == (if header_size(bytes, pos) == 0 {
        Seq::<u8>::empty()
    } else {
        bytes.subrange(pos + 512, pos + 512 + header_size(bytes, pos))
    })
}

impl File {
    /// Render one octal mode digit as its permission triple.
    pub fn parse_permission(digit: u32) -> (s: String)
        ensures
            s@ == permission_chars(digit),
    {
        proof {
            reveal_strlit("r");
            reveal_strlit("w");
            reveal_strlit("x");
            reveal_strlit("-");
        }
        let r = if digit & 0b100 == 0b100 {
            "r"
        } else {
            "-"
        };
        let w = if digit & 0b010 == 0b010 {
            "w"
        } else {
            "-"
        };
        let x = if digit & 0b001 == 0b001 {
            "x"
        } else {
            "-"
        };
        let mut s = String::from_str(r);
        s.append(w);
        s.append(x);
        assert(s@ =~= permission_chars(digit));
        s
    }

    /// The Gregorian leap-year rule.
    fn leap_year(y: u32) -> (r: bool)
        ensures
            r == is_leap_year(y as nat),
    {
        (y % 4 == 0 && y % 100 != 0) || y % 400 == 0
    }

    /// Seconds in year `y`.
    fn year_seconds(y: u32) -> (s: u32)
        ensures
            s == seconds_in_year(y as nat),
            s >= 31536000,
    {
        if File::leap_year(y) {
            31622400
        } else {
            31536000
        }
    }

    /// Seconds in month `m` of year `y`.
    fn month_seconds(y: u32, m: u32) -> (s: u32)
        requires
            1 <= m <= 12,
        ensures
            s == days_in_month(y as nat, m as nat) * 86400,
            s >= 2419200,
            s <= 2678400,
    {
        let d: u32 = if m == 2 {
            if File::leap_year(y) {
                29
            } else {
                28
            }
        } else if m == 4 || m == 6 || m == 9 || m == 11 {
            30
        } else {
            31
        };
        d * 86400
    }

    /// Render this file as one directory-listing line. A mode of fewer than
    /// three decimal digits is a malformed entry the listing does not
    /// render.
    pub fn render(&self) -> (s: String)
        requires
            self.header.mode >= 100,
        ensures
            s@ == file_line(self.header),
    {
        let mode = self.header.mode;
        let mut div: u32 = 1;
        let mut tmp = mode;
        proof {
            lemma_leading_pow10_bounds(mode as nat);
        }
        while tmp >= 10
            invariant
                mode >= 100,
                leading_pow10(mode as nat) == (div as nat) * leading_pow10(tmp as nat),
                100 <= leading_pow10(mode as nat) <= mode,
                div <= mode,
            decreases tmp,
        {
            proof {
                lemma_leading_pow10_bounds(tmp as nat);
                assert(leading_pow10(tmp as nat) == 10 * leading_pow10((tmp / 10) as nat));
                assert((div as nat) * 10 <= (div as nat) * leading_pow10(tmp as nat))
                    by (nonlinear_arith)
                    requires
                        leading_pow10(tmp as nat) >= 10,
                ;
                assert((div as nat) * (10 * leading_pow10((tmp / 10) as nat)) == ((div as nat)
                    * 10) * leading_pow10((tmp / 10) as nat)) by (nonlinear_arith);
            }
            div = div * 10;
            tmp = tmp / 10;
        }
        proof {
            lemma_leading_pow10_bounds(tmp as nat);
            assert(leading_pow10(tmp as nat) == 1);
            assert((div as nat) * leading_pow10(tmp as nat) == (div as nat) * 1)
                by (nonlinear_arith)
                requires
                    leading_pow10(tmp as nat) == 1,
            ;
            assert(leading_pow10(mode as nat) == div as nat);
            assert(div >= 100);
        }
        let d0 = (mode / div) % 10;
        let d1 = (mode / (div / 10)) % 10;
        let d2 = (mode / (div / 100)) % 10;
        proof {
            reveal_strlit("d");
            reveal_strlit("-");
            reveal_strlit("/");
            reveal_strlit(" ");
        }
        let flag = if self.header.flag == 5 {
            "d"
        } else {
            "-"
        };
        let mut s = String::from_str(flag);
        s.append(File::parse_permission(d0).as_str());
        s.append(File::parse_permission(d1).as_str());
        s.append(File::parse_permission(d2).as_str());
        s.append(" ");
        s.append(self.header.username.as_str());
        s.append("/");
        s.append(self.header.group.as_str());
        s.append(" ");
        s.append(u64_to_dec(self.header.size as u64).as_str());
        s.append(" ");
        s.append(File::parse_timestamp(self.header.mtime).as_str());
        s.append(" ");
        s.append(self.header.name.as_str());
        assert(s@ =~= file_line(self.header));
        s
    }

    /// Render a modification instant, counted in seconds since the start of
    /// 1970, to minute resolution: `year-month-day hour:minute`.
    pub fn parse_timestamp(timestamp: u32) -> (s: String)
        ensures
            s@ == timestamp_chars(timestamp as nat),
    {
        let mut seconds = timestamp;
        let mut year: u32 = 1970;
        loop
            invariant
                1970 <= year,
                seconds <= timestamp,
                (year - 1970) * 31536000 <= timestamp - seconds,
                split_year(timestamp as nat, 1970) == split_year(seconds as nat, year as nat),
            ensures
                1970 <= year,
                split_year(timestamp as nat, 1970) == (year as nat, seconds as nat),
                seconds < seconds_in_year(year as nat),
            decreases seconds,
        {
            let sy = File::year_seconds(year);
            if seconds < sy {
                break;
            }
            seconds -= sy;
            year += 1;
        }
        let ghost r1 = seconds as nat;
        proof {
            lemma_days_from_month_total(year as nat);
        }
        let mut month: u32 = 1;
        loop
            invariant
                1 <= month <= 12,
                (seconds as nat) < days_from_month(year as nat, month as nat) * 86400,
                split_month(r1, year as nat, 1) == split_month(
                    seconds as nat,
                    year as nat,
                    month as nat,
                ),
            ensures
                1 <= month <= 12,
                split_month(r1, year as nat, 1) == (month as nat, seconds as nat),
                seconds < 2678400,
            decreases 12 - month,
        {
            if month >= 12 {
                proof {
                    assert(days_from_month(year as nat, 12) == days_in_month(year as nat, 12)
                        + days_from_month(year as nat, 13));
                }
                break;
            }
            let dm = File::month_seconds(year, month);
            if seconds < dm {
                break;
            }
            proof {
                assert(days_from_month(year as nat, month as nat) == days_in_month(
                    year as nat,
                    month as nat,
                ) + days_from_month(year as nat, month as nat + 1));
            }
            seconds -= dm;
            month += 1;
        }
        let day = seconds / 86400 + 1;
        let mut rest = seconds % 86400;
        let hour = rest / 3600;
        rest = rest % 3600;
        let minute = rest / 60;
        let mut s = u64_to_dec(year as u64);
        s.append("-");
        s.append(u64_to_dec_pad2(month as u64).as_str());
        s.append("-");
        s.append(u64_to_dec_pad2(day as u64).as_str());
        s.append(" ");
        s.append(u64_to_dec_pad2(hour as u64).as_str());
        s.append(":");
        s.append(u64_to_dec_pad2(minute as u64).as_str());
        assert(s@ =~= timestamp_chars(timestamp as nat));
        s
    }
}

/// The archive that the boot protocol loaded, fully parsed.
pub struct Initrd {
    pub files: Vec<File>,
}

impl Initrd {
    /// Read a NUL-padded ASCII string field of `length` bytes at `offset`.
    pub fn parse_string(data: &Vec<u8>, offset: usize, length: usize) -> (s: String)
        requires
            offset + length <= data@.len(),
            is_ascii_bytes(data@.subrange(offset as int, (offset + length) as int)),
        ensures
            s@ == string_field_chars(data@.subrange(offset as int, (offset + length) as int)),
    {
        let ghost f = data@.subrange(offset as int, (offset + length) as int);
        let n = data.len();
        let mut end = offset + length;
        while end > offset && data[end - 1] == 0
            invariant
                offset <= end <= offset + length,
                offset + length <= data@.len(),
                f == data@.subrange(offset as int, (offset + length) as int),
                trim_nuls(data@.subrange(offset as int, end as int)) == trim_nuls(f),
            decreases end,
        {
            proof {
                let cur = data@.subrange(offset as int, end as int);
                assert(cur.last() == data@[end - 1]);
                assert(cur.drop_last() =~= data@.subrange(offset as int, end - 1));
            }
            end -= 1;
        }
        proof {
            let cur = data@.subrange(offset as int, end as int);
            if end > offset {
                assert(cur.last() == data@[end - 1]);
            }
            assert(trim_nuls(cur) == cur);
        }
        let mut s = String::new();
        let mut i = offset;
        while i < end
            invariant
                offset <= i <= end,
                end <= offset + length,
                offset + length <= data@.len(),
                is_ascii_bytes(f),
                f == data@.subrange(offset as int, (offset + length) as int),
                s@ == chars_of(data@.subrange(offset as int, i as int)),
            decreases end - i,
        {
            let b = data[i];
            proof {
                assert(f[i - offset] == data@[i as int]);
            }
            push_char(&mut s, b as char);
            proof {
                assert(s@ =~= chars_of(data@.subrange(offset as int, i + 1)));
            }
            i += 1;
        }
        proof {
            assert(s@ == chars_of(trim_nuls(f)));
        }
        s
    }

    /// Read a decimal numeral field: its value when the trimmed bytes form
    /// a nonempty decimal numeral that fits, and zero otherwise.
    pub fn parse_integer(data: &Vec<u8>, offset: usize, length: usize) -> (r: u32)
        requires
            offset + length <= data@.len(),
        ensures
            r == integer_field_value(data@.subrange(offset as int, (offset + length) as int)),
    {
        let ghost f = data@.subrange(offset as int, (offset + length) as int);
        let n = data.len();
        let mut end = offset + length;
        while end > offset && data[end - 1] == 0
            invariant
                offset <= end <= offset + length,
                offset + length <= data@.len(),
                f == data@.subrange(offset as int, (offset + length) as int),
                trim_nuls(data@.subrange(offset as int, end as int)) == trim_nuls(f),
            decreases end,
        {
            proof {
                let cur = data@.subrange(offset as int, end as int);
                assert(cur.last() == data@[end - 1]);
                assert(cur.drop_last() =~= data@.subrange(offset as int, end - 1));
            }
            end -= 1;
        }
        let ghost t = trim_nuls(f);
        proof {
            let cur = data@.subrange(offset as int, end as int);
            if end > offset {
                assert(cur.last() == data@[end - 1]);
            }
            assert(trim_nuls(cur) == cur);
            assert(t == cur);
        }
        if end == offset {
            return 0;
        }
        let mut v: u32 = 0;
        let mut i = offset;
        while i < end
            invariant
                offset <= i <= end,
                end <= offset + length,
                offset + length <= data@.len(),
                f == data@.subrange(offset as int, (offset + length) as int),
                t == trim_nuls(f),
                t == data@.subrange(offset as int, end as int),
                all_dec(t.take(i - offset)),
                v == dec_value(t.take(i - offset)),
            decreases end - i,
        {
            let b = data[i];
            proof {
                assert(t[i - offset] == data@[i as int]);
            }
            if b < 48 || b > 57 {
                proof {
                    assert(!all_dec(t));
                }
                return 0;
            }
            let d = (b - 48) as u32;
            proof {
                assert(t.take(i - offset + 1).drop_last() =~= t.take(i - offset));
                assert(t.take(i - offset + 1).last() == t[i - offset]);
            }
            if v > (u32::MAX - d) / 10 {
                proof {
                    assert(dec_value(t.take(i - offset + 1)) == v * 10 + d);
                    assert(v * 10 + d > u32::MAX) by (nonlinear_arith)
                        requires
                            v > (u32::MAX - d) / 10,
                            d <= 9,
                    ;
                    lemma_dec_prefix_le(t, i - offset + 1);
                    assert(dec_value(t) > u32::MAX);
                }
                return 0;
            }
            proof {
                assert(v * 10 + d <= u32::MAX) by (nonlinear_arith)
                    requires
                        v <= (u32::MAX - d) / 10,
                        d <= 9,
                ;
            }
            v = v * 10 + d;
            i += 1;
        }
        proof {
            assert(t.take(end - offset) =~= t);
        }
        v
    }

    /// Read a well-formed octal numeral field.
    pub fn parse_octal(data: &Vec<u8>, offset: usize, length: usize) -> (r: u32)
        requires
            offset + length <= data@.len(),
            wf_octal(data@.subrange(offset as int, (offset + length) as int)),
        ensures
            r == octal_field_value(data@.subrange(offset as int, (offset + length) as int)),
    {
        let ghost f = data@.subrange(offset as int, (offset + length) as int);
        let n = data.len();
        let mut end = offset + length;
        while end > offset && data[end - 1] == 0
            invariant
                offset <= end <= offset + length,
                offset + length <= data@.len(),
                f == data@.subrange(offset as int, (offset + length) as int),
                trim_nuls(data@.subrange(offset as int, end as int)) == trim_nuls(f),
            decreases end,
        {
            proof {
                let cur = data@.subrange(offset as int, end as int);
                assert(cur.last() == data@[end - 1]);
                assert(cur.drop_last() =~= data@.subrange(offset as int, end - 1));
            }
            end -= 1;
        }
        let ghost t = trim_nuls(f);
        proof {
            let cur = data@.subrange(offset as int, end as int);
            if end > offset {
                assert(cur.last() == data@[end - 1]);
            }
            assert(trim_nuls(cur) == cur);
            assert(t == cur);
        }
        let mut v: u32 = 0;
        let mut i = offset;
        while i < end
            invariant
                offset <= i <= end,
                end <= offset + length,
                offset + length <= data@.len(),
                f == data@.subrange(offset as int, (offset + length) as int),
                t == trim_nuls(f),
                t == data@.subrange(offset as int, end as int),
                all_oct(t),
                oct_value(t) <= u32::MAX,
                v == oct_value(t.take(i - offset)),
            decreases end - i,
        {
            let b = data[i];
            proof {
                assert(t[i - offset] == data@[i as int]);
                assert(t.take(i - offset + 1).drop_last() =~= t.take(i - offset));
                assert(t.take(i - offset + 1).last() == t[i - offset]);
                lemma_oct_prefix_le(t, i - offset + 1);
            }
            let d = (b - 48) as u32;
            v = v * 8 + d;
            i += 1;
        }
        proof {
            assert(t.take(end - offset) =~= t);
        }
        v
    }

    /// Whether the block at `pos` is the all-zero end-of-archive marker.
    fn zero_block(data: &Vec<u8>, pos: usize) -> (r: bool)
        requires
            pos + 512 <= data@.len(),
        ensures
            r == is_zero_block(data@, pos as int),
    {
        let n = data.len();
        let mut i: usize = 0;
        while i < 512
            invariant
                i <= 512,
                n == data@.len(),
                pos + 512 <= n,
                forall|k: int| pos <= k < pos + i ==> (#[trigger] data@[k]) == 0,
            decreases 512 - i,
        {
            if data[pos + i] != 0 {
                return false;
            }
            i += 1;
        }
        true
    }

    /// Parse the sixteen fields of the header block at `pos`.
    pub fn parse_header(data: &Vec<u8>, pos: usize) -> (h: Header)
        requires
            wf_header_at(data@, pos as int),
        ensures
            header_matches(h, data@, pos as int),
    {
        let n = data.len();
        proof {
            assert(pos + 512 <= n);
        }
        Header {
            name: Initrd::parse_string(data, pos, 100),
            mode: Initrd::parse_integer(data, pos + 100, 8),
            user_id: Initrd::parse_octal(data, pos + 108, 8),
            group_id: Initrd::parse_octal(data, pos + 116, 8),
            size: Initrd::parse_octal(data, pos + 124, 12),
            mtime: Initrd::parse_octal(data, pos + 136, 12),
            checksum: Initrd::parse_string(data, pos + 148, 8),
            flag: Initrd::parse_integer(data, pos + 156, 1),
            linked: Initrd::parse_string(data, pos + 157, 100),
            indicator: Initrd::parse_string(data, pos + 257, 6),
            version: Initrd::parse_string(data, pos + 263, 2),
            username: Initrd::parse_string(data, pos + 265, 32),
            group: Initrd::parse_string(data, pos + 297, 32),
            major: Initrd::parse_integer(data, pos + 329, 8),
            minor: Initrd::parse_integer(data, pos + 337, 8),
            prefix: Initrd::parse_string(data, pos + 345, 155),
        }
    }

    /// Copy `length` data bytes starting at `pos`.
    fn parse_data(data: &Vec<u8>, pos: usize, length: usize) -> (d: Vec<u8>)
        requires
            pos + length <= data@.len(),
        ensures
            d@ == data@.subrange(pos as int, (pos + length) as int),
    {
        let n = data.len();
        let mut d: Vec<u8> = Vec::new();
        let mut i: usize = 0;
        while i < length
            invariant
                i <= length,
                n == data@.len(),
                pos + length <= n,
                d@ == data@.subrange(pos as int, (pos + i) as int),
            decreases length - i,
        {
            d.push(data[pos + i]);
            proof {
                assert(d@ =~= data@.subrange(pos as int, pos + i + 1));
            }
            i += 1;
        }
        d
    }

    /// Parse the whole archive: every file up to the end-of-archive marker,
    /// in order. The caller guarantees a well-formed archive; a malformed
    /// module is a boot-time defect.
    pub fn new(data: &Vec<u8>) -> (initrd: Initrd)
        requires
            wf_archive_at(data@, 0),
        ensures
            initrd.files@.len() == header_positions(data@, 0).len(),
            forall|i: int|
                0 <= i < initrd.files@.len() ==> file_matches(
                    #[trigger] initrd.files@[i],
                    data@,
                    header_positions(data@, 0)[i],
                ),
    {
        let ghost positions = header_positions(data@, 0);
        let n = data.len();
        let mut files: Vec<File> = Vec::new();
        let mut pos: usize = 0;
        loop
            invariant
                n == data@.len(),
                wf_archive_at(data@, pos as int),
                positions == header_positions(data@, 0),
                header_positions(data@, pos as int) == positions.skip(files@.len() as int),
                files@.len() <= positions.len(),
                forall|i: int|
                    0 <= i < files@.len() ==> file_matches(
                        #[trigger] files@[i],
                        data@,
                        positions[i],
                    ),
            ensures
                files@.len() == positions.len(),
                forall|i: int|
                    0 <= i < files@.len() ==> file_matches(
                        #[trigger] files@[i],
                        data@,
                        positions[i],
                    ),
            decreases data@.len() - pos,
        {
            let ghost k = files@.len() as int;
            let ghost p0 = pos as int;
            if Initrd::zero_block(data, pos) {
                proof {
                    assert(header_positions(data@, p0) =~= Seq::<int>::empty());
                    assert(positions.skip(k).len() == 0);
                }
                break;
            }
            let header = Initrd::parse_header(data, pos);
            let size = header.size;
            proof {
                assert(header_size(data@, p0) == size as nat);
            }
            let mut fdata: Vec<u8> = Vec::new();
            let next: usize;
            if size != 0 {
                let nblocks = (size as u64 + 511) / 512;
                let skip64 = 512u64 * nblocks;
                proof {
                    assert(next_header_pos(data@, p0) <= data@.len());
                    assert(data_blocks_len(size as nat) == skip64 as int);
                    vstd::arithmetic::div_mod::lemma_fundamental_div_mod(
                        size as int + 511,
                        512,
                    );
                    assert(size as int <= data_blocks_len(size as nat));
                }
                fdata = Initrd::parse_data(data, pos + 512, size as usize);
                next = pos + 512 + (skip64 as usize);
                proof {
                    assert(next as int == next_header_pos(data@, p0));
                }
            } else {
                next = pos + 512;
                proof {
                    assert(data_blocks_len(0) == 0);
                    assert(next as int == next_header_pos(data@, p0));
                }
            }
            let file = File { header, data: fdata };
            proof {
                assert(file_matches(file, data@, p0));
            }
            files.push(file);
            proof {
                assert(header_positions(data@, p0) == seq![p0] + header_positions(
                    data@,
                    next as int,
                ));
                assert(positions.skip(k).len() > 0);
                assert(positions.skip(k) == positions.subrange(k, positions.len() as int));
                assert(positions.subrange(k, positions.len() as int)[0] == positions[k]);
                assert(positions[k] == p0);
                assert forall|i: int| 0 <= i < positions.len() - (k + 1) implies positions.skip(
                    k + 1,
                )[i] == header_positions(data@, next as int)[i] by {
                    assert(positions.skip(k)[i + 1] == positions[k + 1 + i]);
                }
                assert(header_positions(data@, next as int) =~= positions.skip(k + 1));
            }
            pos = next;
        }
        Initrd { files }
    }

    /// All parsed files, in archive order.
    pub fn get_files(&self) -> (files: &Vec<File>)
        ensures
            files@ == self.files@,
    {
        &self.files
    }

    /// The data of the first file whose name is `path`. The caller
    /// guarantees such a file exists; asking for an unknown path is a
    /// defect.
    pub fn get_data(&self, path: &str) -> (d: &Vec<u8>)
        requires
            exists|i: int|
                0 <= i < self.files@.len() && (#[trigger] self.files@[i]).header.name@ == path@,
        ensures
            exists|i: int|
                {
                    &&& 0 <= i < self.files@.len()
                    &&& (#[trigger] self.files@[i]).header.name@ == path@
                    &&& d@ == self.files@[i].data@
                    &&& forall|j: int|
                        0 <= j < i ==> (#[trigger] self.files@[j]).header.name@ != path@
                },
    {
        let len = self.files.len();
        let mut i: usize = 0;
        while i < len
            invariant
                i <= len,
                len == self.files@.len(),
                forall|j: int|
                    0 <= j < i ==> (#[trigger] self.files@[j]).header.name@ != path@,
            decreases len - i,
        {
            if str_eq(self.files[i].header.name.as_str(), path) {
                return &self.files[i].data;
            }
            i += 1;
        }
        proof {
            assert(false);
        }
        &self.files[0].data
    }
}

/// Report how many files the parsed ramdisk holds, as one Debug-severity
/// entry in the log buffer.
pub fn initialize(initrd: &Initrd, logger: &mut Logger)
    ensures
        appended(
            old(logger).logs@,
            final(logger).logs@,
            Level::Debug,
            initrd_message(initrd.files@.len()),
        ),
{
    let count = initrd.files.len();
    let mut s = String::from_str("Loaded ");
    s.append(u64_to_dec(count as u64).as_str());
    s.append(" files from the initial ramdisk.");
    assert(s@ =~= initrd_message(initrd.files@.len()));
    logger.debug(s.as_str());
}

/// The message logged for a parsed ramdisk.
pub open spec fn initrd_message(count: nat) -> Seq<char> {
    "Loaded "@ + dec_seq(count) + " files from the initial ramdisk."@
}

} // verus!
