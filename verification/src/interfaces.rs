//! Reading the addresses of the network interfaces from the listing that
//! `ip addr` prints.
//!
//! The listing is read line by line. A line that starts with a digit opens
//! an interface; its name stands after the first `": "`, up to the next
//! blank, without colons at its end and without what follows an `@`. A line
//! that holds `"inet "` gives an address of the interface last opened, and
//! counts where the name of that interface starts with `eth0`: the address is
//! what stands before the first `/` of the line, back to the blank before
//! it.

use vstd::prelude::*;
use vstd::string::*;
use crate::network::{address_model, no_interface, AddressModel};

verus! {

/// Where `pattern` first occurs in `s`, or the length of `s` where it does
/// not occur.
pub open spec fn first_occurrence(s: Seq<char>, pattern: Seq<char>) -> int
    decreases s.len(),
{
    if s.len() < pattern.len() || s.len() == 0 {
        s.len() as int
    } else if s.take(pattern.len() as int) == pattern {
        0
    } else {
        1 + first_occurrence(s.drop_first(), pattern)
    }
}

/// The first occurrence lies within the text.
pub proof fn lemma_first_occurrence_within(s: Seq<char>, pattern: Seq<char>)
    ensures
        0 <= first_occurrence(s, pattern) <= s.len(),
        first_occurrence(s, pattern) < s.len() ==> first_occurrence(s, pattern) + pattern.len() <= s.len(),
    decreases s.len(),
{
    if s.len() < pattern.len() || s.len() == 0 {
    } else if s.take(pattern.len() as int) == pattern {
    } else {
        lemma_first_occurrence_within(s.drop_first(), pattern);
    }
}

/// `String::from_iter` on the characters of a slice: the text made of these
/// characters, in their order.
#[verifier::external_body]
fn text_of(chars: &[char]) -> (text: String)
    ensures
        text@ == chars@,
{
    String::from_iter(chars.iter())
}

/// The characters of a text.
fn chars_of(text: &str) -> (chars: Vec<char>)
    ensures
        chars@ == text@,
{
    let mut chars: Vec<char> = Vec::new();
    for c in it: text.chars()
        invariant
            it.seq() == text@,
            chars@ == text@.take(it.index() as int),
    {
        chars.push(c);
        assert(chars@ =~= text@.take(it.index() + 1));
    }
    assert(text@.take(text@.len() as int) =~= text@);
    chars
}

/// Whether `pattern` stands at the start of `s`.
fn starts_with(s: &[char], pattern: &[char]) -> (r: bool)
    ensures
        r == (pattern@.len() <= s@.len() && s@.take(pattern@.len() as int) == pattern@),
{
    if pattern.len() > s.len() {
        return false;
    }
    let mut k: usize = 0;
    while k < pattern.len()
        invariant
            k <= pattern.len() <= s.len(),
            forall|j: int| 0 <= j < k ==> s@[j] == pattern@[j],
        decreases pattern.len() - k,
    {
        if s[k] != pattern[k] {
            assert(s@.take(pattern@.len() as int)[k as int] != pattern@[k as int]);
            return false;
        }
        k += 1;
    }
    assert(s@.take(pattern@.len() as int) =~= pattern@);
    true
}

/// Where `pattern` first occurs in `s`, or the length of `s`.
fn find(s: &[char], pattern: &[char]) -> (r: usize)
    ensures
        r == first_occurrence(s@, pattern@),
        r <= s@.len(),
{
    let mut i: usize = 0;
    assert(s@.skip(0) =~= s@);
    while i < s.len()
        invariant
            i <= s.len(),
            first_occurrence(s@, pattern@) == i + first_occurrence(s@.skip(i as int), pattern@),
        decreases s.len() - i,
    {
        let rest = &s[i..s.len()];
        assert(rest@ =~= s@.skip(i as int));
        if rest.len() < pattern.len() {
            return s.len();
        }
        if starts_with(rest, pattern) {
            return i;
        }
        assert(s@.skip(i as int).drop_first() =~= s@.skip(i + 1));
        i += 1;
    }
    i
}

/// Whether `c` is a decimal digit.
pub open spec fn is_digit(c: char) -> bool {
    '0' <= c <= '9'
}

/// Whether `c` is a blank, a tab, or one of the characters that end a line.
pub open spec fn is_blank(c: char) -> bool {
    c == ' ' || ('\t' <= c <= '\r')
}

/// The mark that is followed by the name of an interface.
pub open spec fn name_mark() -> Seq<char> {
    seq![':', ' ']
}

/// The mark of a line that gives an address.
pub open spec fn inet_mark() -> Seq<char> {
    seq!['i', 'n', 'e', 't', ' ']
}

/// The start of the names of the interfaces whose addresses count.
pub open spec fn wired() -> Seq<char> {
    seq!['e', 't', 'h', '0']
}

/// `s` without the colons at its end.
pub open spec fn without_trailing_colons(s: Seq<char>) -> Seq<char>
    decreases s.len(),
{
    if s.len() > 0 && s.last() == ':' {
        without_trailing_colons(s.drop_last())
    } else {
        s
    }
}

/// What stands in `s` before the first occurrence of `pattern`; all of `s`
/// where it does not occur.
pub open spec fn before(s: Seq<char>, pattern: Seq<char>) -> Seq<char> {
    s.take(first_occurrence(s, pattern))
}

/// The name of the interface that a line opens, where the line holds the
/// mark of a name.
pub open spec fn header_name(line: Seq<char>) -> Option<Seq<char>> {
    let i = first_occurrence(line, name_mark());
    if i < line.len() {
        Some(before(without_trailing_colons(before(line.skip(i + 2), seq![' '])), seq!['@']))
    } else {
        None
    }
}

/// Where the word starts that ends before index `end` of `s`: behind the
/// last blank before `end`.
pub open spec fn word_start(s: Seq<char>, end: int) -> int
    decreases end,
{
    if end <= 0 {
        0
    } else if is_blank(s[end - 1]) {
        end
    } else {
        word_start(s, end - 1)
    }
}

/// What stands before the first `/` of a line, back to the blank before it.
pub open spec fn slash_word(line: Seq<char>) -> Option<Seq<char>> {
    let p = first_occurrence(line, seq!['/']);
    if p < line.len() {
        Some(line.subrange(word_start(line, p), p))
    } else {
        None
    }
}

/// The number that a sequence of digits denotes.
pub open spec fn digits_value(d: Seq<char>) -> nat
    decreases d.len(),
{
    if d.len() == 0 {
        0
    } else {
        digits_value(d.drop_last()) * 10 + ((d.last() as u32 - '0' as u32) as nat)
    }
}

/// The octet that a text denotes where it is a number of at most 255 in
/// decimal digits; any other text counts as 0.
pub open spec fn number_value(d: Seq<char>) -> u8 {
    if d.len() > 0 && (forall|i: int| 0 <= i < d.len() ==> is_digit(#[trigger] d[i])) && digits_value(d) <= 255 {
        digits_value(d) as u8
    } else {
        0
    }
}

/// The octet that a field of an address denotes: its number, with or
/// without a `+` before the digits.
pub open spec fn octet_value(field: Seq<char>) -> u8 {
    if field.len() > 0 && field[0] == '+' {
        number_value(field.skip(1))
    } else {
        number_value(field)
    }
}

/// The octets of an address of four fields with a `.` between them; an
/// address of more or fewer fields has none.
pub open spec fn address_octets(ip: Seq<char>) -> Option<Seq<u8>> {
    let dot = seq!['.'];
    let a = first_occurrence(ip, dot);
    let second = ip.skip(a + 1);
    let b = first_occurrence(second, dot);
    let third = second.skip(b + 1);
    let c = first_occurrence(third, dot);
    let fourth = third.skip(c + 1);
    if a < ip.len() && b < second.len() && c < third.len() && first_occurrence(fourth, dot) == fourth.len() {
        Some(
            seq![
                octet_value(ip.take(a)),
                octet_value(second.take(b)),
                octet_value(third.take(c)),
                octet_value(fourth),
            ],
        )
    } else {
        None
    }
}

/// What has been read of a listing: the interface last opened, and the
/// addresses found so far.
pub struct Scan {
    pub interface: Seq<char>,
    pub found: Seq<AddressModel>,
}

/// A line without the carriage return at its end.
pub open spec fn line_of(raw: Seq<char>) -> Seq<char> {
    if raw.len() > 0 && raw.last() == '\r' {
        raw.drop_last()
    } else {
        raw
    }
}

/// What has been read after one more line.
pub open spec fn after_line(scan: Scan, line: Seq<char>) -> Scan {
    if line.len() > 0 && is_digit(line[0]) {
        match header_name(line) {
            Some(name) => Scan { interface: name, ..scan },
            None => scan,
        }
    } else if first_occurrence(line, inet_mark()) < line.len() && scan.interface.len() >= 4
        && scan.interface.take(4) == wired() {
        match slash_word(line) {
            Some(ip) => match address_octets(ip) {
                Some(octets) => Scan {
                    found: scan.found.push(AddressModel { interface: scan.interface, ip, octets }),
                    ..scan
                },
                None => scan,
            },
            None => scan,
        }
    } else {
        scan
    }
}

/// What has been read after the lines of `text`.
pub open spec fn after_text(scan: Scan, text: Seq<char>) -> Scan
    decreases text.len(),
{
    if text.len() == 0 {
        scan
    } else {
        let n = first_occurrence(text, seq!['\n']);
        let next = after_line(scan, line_of(text.take(n)));
        if 0 <= n < text.len() {
            after_text(next, text.skip(n + 1))
        } else {
            next
        }
    }
}

/// The addresses that a listing gives: those found in it, in its order, or
/// the record that stands for no interface where it holds none.
pub open spec fn listed(text: Seq<char>) -> Seq<AddressModel> {
    let found = after_text(Scan { interface: Seq::empty(), found: Seq::empty() }, text).found;
    if found.len() == 0 {
        seq![no_interface()]
    } else {
        found
    }
}

fn strip_colons(s: &[char]) -> (r: &[char])
    ensures
        r@ == without_trailing_colons(s@),
{
    let mut end: usize = s.len();
    assert(s@.take(end as int) =~= s@);
    while end > 0 && s[end - 1] == ':'
        invariant
            end <= s.len(),
            without_trailing_colons(s@) == without_trailing_colons(s@.take(end as int)),
        decreases end,
    {
        assert(s@.take(end as int).drop_last() =~= s@.take(end - 1));
        end -= 1;
    }
    let r = &s[0..end];
    assert(r@ =~= s@.take(end as int));
    r
}

fn name_of_header(line: &[char]) -> (r: Option<&[char]>)
    ensures
        match r {
            Some(name) => header_name(line@) == Some(name@),
            None => header_name(line@) is None,
        },
{
    let mark = vec![':', ' '];
    assert(mark@ =~= name_mark());
    let i = find(line, mark.as_slice());
    if i >= line.len() {
        return None;
    }
    proof {
        lemma_first_occurrence_within(line@, name_mark());
    }
    let rest = &line[i + 2..line.len()];
    assert(rest@ =~= line@.skip(i + 2));
    let blank = vec![' '];
    assert(blank@ =~= seq![' ']);
    let word = &rest[0..find(rest, blank.as_slice())];
    assert(word@ =~= before(rest@, seq![' ']));
    let bare = strip_colons(word);
    let at = vec!['@'];
    assert(at@ =~= seq!['@']);
    let name = &bare[0..find(bare, at.as_slice())];
    assert(name@ =~= before(bare@, seq!['@']));
    Some(name)
}

fn is_blank_char(c: char) -> (r: bool)
    ensures
        r == is_blank(c),
{
    c == ' ' || ('\t' <= c && c <= '\r')
}

fn word_before_slash(line: &[char]) -> (r: Option<&[char]>)
    ensures
        match r {
            Some(word) => slash_word(line@) == Some(word@),
            None => slash_word(line@) is None,
        },
{
    let slash = vec!['/'];
    assert(slash@ =~= seq!['/']);
    let p = find(line, slash.as_slice());
    if p >= line.len() {
        return None;
    }
    let mut start: usize = p;
    while start > 0 && !is_blank_char(line[start - 1])
        invariant
            start <= p < line.len(),
            word_start(line@, p as int) == word_start(line@, start as int),
        decreases start,
    {
        start -= 1;
    }
    let word = &line[start..p];
    Some(word)
}

/// A number in digits is no less than the number in its first digits.
proof fn lemma_digits_value_grows(d: Seq<char>, k: int)
    requires
        0 <= k <= d.len(),
    ensures
        digits_value(d.take(k)) <= digits_value(d),
    decreases d.len(),
{
    if k == d.len() {
        assert(d.take(k) =~= d);
    } else {
        lemma_digits_value_grows(d.drop_last(), k);
        assert(d.drop_last().take(k) =~= d.take(k));
        assert(digits_value(d.drop_last()) * 10 >= digits_value(d.drop_last())) by (nonlinear_arith);
    }
}

fn octet_of(field: &[char]) -> (r: u8)
    ensures
        r == octet_value(field@),
{
    if field.len() > 0 && field[0] == '+' {
        let d = &field[1..field.len()];
        assert(d@ =~= field@.skip(1));
        number_of(d)
    } else {
        number_of(field)
    }
}

fn number_of(d: &[char]) -> (r: u8)
    ensures
        r == number_value(d@),
{
    let mut value: u16 = 0;
    let mut k: usize = 0;
    while k < d.len()
        invariant
            k <= d.len(),
            forall|j: int| 0 <= j < k ==> is_digit(#[trigger] d@[j]),
            value == digits_value(d@.take(k as int)),
            value <= 255,
        decreases d.len() - k,
    {
        let c = d[k];
        if !('0' <= c && c <= '9') {
            return 0;
        }
        let digit: u16 = (c as u32 - '0' as u32) as u16;
        value = value * 10 + digit;
        proof {
            assert(d@.take(k + 1).drop_last() =~= d@.take(k as int));
            assert(d@.take(k + 1).last() == c);
        }
        if value > 255 {
            proof {
                lemma_digits_value_grows(d@, k + 1);
            }
            return 0;
        }
        k += 1;
    }
    assert(d@.take(k as int) =~= d@);
    value as u8
}

fn octets_of(ip: &[char]) -> (r: Option<[u8; 4]>)
    ensures
        match r {
            Some(octets) => address_octets(ip@) == Some(octets@),
            None => address_octets(ip@) is None,
        },
{
    let dot = vec!['.'];
    assert(dot@ =~= seq!['.']);
    let a = find(ip, dot.as_slice());
    if a >= ip.len() {
        return None;
    }
    let second = &ip[a + 1..ip.len()];
    assert(second@ =~= ip@.skip(a + 1));
    let b = find(second, dot.as_slice());
    if b >= second.len() {
        return None;
    }
    let third = &second[b + 1..second.len()];
    assert(third@ =~= second@.skip(b + 1));
    let c = find(third, dot.as_slice());
    if c >= third.len() {
        return None;
    }
    let fourth = &third[c + 1..third.len()];
    assert(fourth@ =~= third@.skip(c + 1));
    if find(fourth, dot.as_slice()) < fourth.len() {
        return None;
    }
    let first = &ip[0..a];
    assert(first@ =~= ip@.take(a as int));
    let second_field = &second[0..b];
    assert(second_field@ =~= second@.take(b as int));
    let third_field = &third[0..c];
    assert(third_field@ =~= third@.take(c as int));
    let octets: [u8; 4] = [octet_of(first), octet_of(second_field), octet_of(third_field), octet_of(fourth)];
    assert(octets@ =~= address_octets(ip@)->0);
    Some(octets)
}

/// The models of a sequence of address records.
pub open spec fn address_models(records: Seq<(String, String, [u8; 4])>) -> Seq<AddressModel> {
    records.map_values(|a: (String, String, [u8; 4])| address_model(a))
}

fn read_line<'a>(line: &'a [char], current: &'a [char], found: &mut Vec<(String, String, [u8; 4])>) -> (next:
    &'a [char])
    ensures
        ({
            let after = after_line(Scan { interface: current@, found: address_models(old(found)@) }, line@);
            &&& next@ == after.interface
            &&& address_models(final(found)@) == after.found
        }),
{
    if line.len() > 0 && '0' <= line[0] && line[0] <= '9' {
        return match name_of_header(line) {
            Some(name) => name,
            None => current,
        };
    }
    let inet = vec!['i', 'n', 'e', 't', ' '];
    assert(inet@ =~= inet_mark());
    let eth = vec!['e', 't', 'h', '0'];
    assert(eth@ =~= wired());
    if find(line, inet.as_slice()) < line.len() && starts_with(current, eth.as_slice()) {
        match word_before_slash(line) {
            Some(ip) => match octets_of(ip) {
                Some(octets) => {
                    let ghost before = found@;
                    found.push((text_of(current), text_of(ip), octets));
                    assert(address_models(found@) =~= address_models(before).push(
                        AddressModel { interface: current@, ip: ip@, octets: octets@ },
                    ));
                },
                None => {},
            },
            None => {},
        }
    }
    current
}

/// The addresses that the listing of `ip addr` gives: see [`listed`].
/// `None` says that the listing could not be had; it gives the record that
/// stands for no interface, as a listing without addresses does.
pub fn collect_interface_ips(output: Option<&str>) -> (ips: Vec<(String, String, [u8; 4])>)
    ensures
        address_models(ips@) == match output {
            Some(text) => listed(text@),
            None => seq![no_interface()],
        },
{
    let mut found: Vec<(String, String, [u8; 4])> = Vec::new();
    let chars = match output {
        Some(text) => chars_of(text),
        None => Vec::new(),
    };
    let text = chars.as_slice();
    let mut current: &[char] = &text[0..0];
    let newline = vec!['\n'];
    assert(newline@ =~= seq!['\n']);
    let ghost start = Scan { interface: Seq::empty(), found: Seq::empty() };
    let mut pos: usize = 0;
    assert(text@.skip(0) =~= text@);
    assert(current@ =~= Seq::<char>::empty());
    assert(address_models(found@) =~= Seq::<AddressModel>::empty());
    while pos < text.len()
        invariant
            pos <= text.len(),
            newline@ == seq!['\n'],
            after_text(start, text@) == after_text(
                Scan { interface: current@, found: address_models(found@) },
                text@.skip(pos as int),
            ),
        decreases text.len() - pos,
    {
        let rest = &text[pos..text.len()];
        assert(rest@ =~= text@.skip(pos as int));
        let n = find(rest, newline.as_slice());
        let raw = &rest[0..n];
        assert(raw@ =~= rest@.take(n as int));
        let line = if raw.len() > 0 && raw[raw.len() - 1] == '\r' {
            &raw[0..raw.len() - 1]
        } else {
            raw
        };
        assert(line@ =~= line_of(raw@));
        current = read_line(line, current, &mut found);
        if n < rest.len() {
            assert(rest@.skip(n + 1) =~= text@.skip(pos + n + 1));
            pos = pos + n + 1;
        } else {
            assert(text@.skip(text@.len() as int).len() == 0);
            pos = text.len();
        }
    }
    if found.len() == 0 {
        let octets: [u8; 4] = [0, 0, 0, 0];
        assert(octets@ =~= seq![0u8, 0u8, 0u8, 0u8]);
        found.push((String::from_str("NoInterface"), String::from_str("0.0.0.0"), octets));
        assert(address_models(found@) =~= seq![no_interface()]);
    }
    found
}

} // verus!
