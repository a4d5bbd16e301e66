//! What holds of numbers, lines, PEM texts and messages.

use vstd::prelude::*;

use crate::addr::{dotted_decimal, ip_text, ipv6_text, IpAddr};
use crate::error::{DnsError, DnsErrorKind};
use crate::laws::{is_marker, no_markers, put_together, text_of_lines};
use crate::pem::{
    base64_decoded, begin_marker, blocks_of_lines, bytes_of, certs_of, certs_view, collect_certs,
    decode_error_text, decoded_bodies, decoded_of, end_marker, find_pem_blocks, first_fault,
    lemma_no_fault, parse_pem_certs, pem_blocks, pem_certs, PemBlocks,
};
use crate::text::{
    decimal, is_white_space, lemma_decimal_digits, lemma_line_end_is, trim, trim_end, trim_start,
    trimmed_lines,
};

verus! {

/// The number that a text of decimal digits stands for.
pub open spec fn read_decimal(text: Seq<char>) -> nat
    decreases text.len(),
{
    if text.len() == 0 {
        0
    } else {
        read_decimal(text.drop_last()) * 10 + (text.last() as nat - '0' as nat) as nat
    }
}

/// Decimal notation reads back as the number, is made of digits, and has no
/// leading zero.
pub proof fn law_decimal_reads_back(number: nat)
    ensures
        read_decimal(decimal(number)) == number,
        decimal(number).len() > 0,
        forall|i: int|
            0 <= i < decimal(number).len() ==> '0' <= #[trigger] decimal(number)[i] <= '9',
        number > 0 ==> decimal(number)[0] != '0',
    decreases number,
{
    lemma_decimal_digits(number);
    let text = decimal(number);
    if number < 10 {
        assert(text.drop_last() == Seq::<char>::empty());
        assert(read_decimal(Seq::<char>::empty()) == 0);
        assert(text.last() as nat == 48 + number);
    } else {
        law_decimal_reads_back(number / 10);
        assert(text.drop_last() == decimal(number / 10));
        assert(text[0] == decimal(number / 10)[0]);
        assert(text.last() as nat == 48 + number % 10);
    }
}

/// An IPv4 address is written as its four octets in decimal, from the highest to
/// the lowest, with dots between them.
pub proof fn law_ipv4_text_is_its_octets(a: u8, b: u8, c: u8, d: u8, ip: u32)
    requires
        ip == a * 0x1000000 + b * 0x10000 + c * 0x100 + d,
    ensures
        dotted_decimal(ip) == decimal(a as nat) + seq!['.'] + decimal(b as nat) + seq!['.']
            + decimal(c as nat) + seq!['.'] + decimal(d as nat),
{
    let (high, low) = (a * 0x100 + b, (a * 0x100 + b) * 0x100 + c);
    lemma_parts(ip as int, 0x1000000, a as int, b * 0x10000 + c * 0x100 + d);
    lemma_parts(ip as int, 0x10000, high, c * 0x100 + d);
    lemma_parts(ip as int, 0x100, low, d as int);
    lemma_parts(high, 0x100, a as int, b as int);
    lemma_parts(low, 0x100, high, c as int);
}

proof fn lemma_parts(number: int, unit: int, quotient: int, rest: int)
    requires
        number == quotient * unit + rest,
        0 <= rest < unit,
    ensures
        number / unit == quotient,
        number % unit == rest,
{
    vstd::arithmetic::div_mod::lemma_fundamental_div_mod_converse(number, unit, quotient, rest);
}

/// An address is written in the notation of its kind, without brackets.
pub proof fn law_address_text_has_no_brackets(ip: IpAddr, text: String)
    requires
        call_ensures(IpAddr::to_text, (&ip,), text),
    ensures
        ip matches IpAddr::V4(number) ==> text@ == dotted_decimal(number),
        ip matches IpAddr::V6(number) ==> text@ == ipv6_text(number),
        text@ == ip_text(ip),
        !text@.contains('['),
        !text@.contains(']'),
{
}

proof fn lemma_trim_start(s: Seq<char>) -> (from: int)
    ensures
        0 <= from <= s.len(),
        trim_start(s) == s.skip(from),
        forall|i: int| 0 <= i < from ==> is_white_space(#[trigger] s[i]),
        from < s.len() ==> !is_white_space(s[from]),
    decreases s.len(),
{
    if s.len() > 0 && is_white_space(s[0]) {
        let rest = s.drop_first();
        let from = lemma_trim_start(rest);
        assert(rest.skip(from) == s.skip(from + 1));
        assert forall|i: int| 0 <= i < from + 1 implies is_white_space(#[trigger] s[i]) by {
            if i > 0 {
                assert(s[i] == rest[i - 1]);
            }
        }
        if from + 1 < s.len() {
            assert(s[from + 1] == rest[from]);
        }
        from + 1
    } else {
        assert(s.skip(0) == s);
        0
    }
}

proof fn lemma_trim_end(s: Seq<char>) -> (to: int)
    ensures
        0 <= to <= s.len(),
        trim_end(s) == s.take(to),
        forall|i: int| to <= i < s.len() ==> is_white_space(#[trigger] s[i]),
        to > 0 ==> !is_white_space(s[to - 1]),
    decreases s.len(),
{
    if s.len() > 0 && is_white_space(s.last()) {
        let rest = s.drop_last();
        let to = lemma_trim_end(rest);
        assert(rest.take(to) == s.take(to));
        assert forall|i: int| to <= i < s.len() implies is_white_space(#[trigger] s[i]) by {
            if i < s.len() - 1 {
                assert(s[i] == rest[i]);
            }
        }
        if to > 0 {
            assert(s[to - 1] == rest[to - 1]);
        }
        to
    } else {
        assert(s.take(s.len() as int) == s);
        s.len() as int
    }
}

/// Trimming leaves the part of a text that begins and ends with something else
/// than white space; what it takes off is white space.
pub proof fn law_trim_takes_off_white_space(s: Seq<char>)
    ensures
        exists|from: int, to: int|
            {
                &&& 0 <= from <= to <= s.len()
                &&& trim(s) == #[trigger] s.subrange(from, to)
                &&& forall|i: int| 0 <= i < from || to <= i < s.len() ==> is_white_space(
                    #[trigger] s[i],
                )
            },
        trim(s).len() > 0 ==> !is_white_space(trim(s)[0]) && !is_white_space(trim(s).last()),
{
    let from = lemma_trim_start(s);
    let t = s.skip(from);
    let len = lemma_trim_end(t);
    let to = from + len;
    assert(forall|i: int| 0 <= i < t.len() ==> t[i] == s[i + from]);
    assert(t.take(len) == s.subrange(from, to));
    assert forall|i: int| 0 <= i < from || to <= i < s.len() implies is_white_space(
        #[trigger] s[i],
    ) by {
        if to <= i {
            assert(s[i] == t[i - from]);
        }
    }
    if trim(s).len() > 0 {
        assert(trim(s)[0] == t[0]);
        assert(t[0] == s[from]);
        assert(trim(s).last() == t[len - 1]);
    }
}

/// The last line of a text counts without a line feed at its end, unless it is
/// empty.
pub proof fn law_last_line_needs_no_line_feed(lines: Seq<Seq<char>>, last: Seq<char>)
    requires
        forall|i: int| 0 <= i < lines.len() ==> !(#[trigger] lines[i]).contains('\n'),
        !last.contains('\n'),
        last.len() > 0,
    ensures
        trimmed_lines(text_of_lines(lines) + last) == lines.map_values(
            |line: Seq<char>| trim(line),
        ).push(trim(last)),
    decreases lines.len(),
{
    let trimmed = lines.map_values(|line: Seq<char>| trim(line));
    let text = text_of_lines(lines) + last;
    if lines.len() == 0 {
        assert(text == last);
        assert forall|i: int| 0 <= i < text.len() implies text[i] != '\n' by {
            assert(last.contains(text[i]));
        }
        lemma_line_end_is(text, text.len() as int);
        assert(trimmed.push(trim(last)) == seq![trim(last)]);
    } else {
        let rest = lines.drop_first();
        let end = lines[0].len() as int;
        assert forall|i: int| 0 <= i < end implies text[i] != '\n' by {
            assert(text[i] == lines[0][i]);
            assert(lines[0].contains(text[i]));
        }
        assert(text[end] == '\n');
        lemma_line_end_is(text, end);
        assert(text.take(end) == lines[0]);
        assert(text.skip(end + 1) == text_of_lines(rest) + last);
        assert(forall|i: int| 0 <= i < rest.len() ==> rest[i] == lines[i + 1]);
        law_last_line_needs_no_line_feed(rest, last);
        assert(trimmed.push(trim(last)) == seq![trim(lines[0])] + rest.map_values(
            |line: Seq<char>| trim(line),
        ).push(trim(last)));
    }
}

/// A start marker within a certificate begins it anew: what was read of it is
/// forgotten.
pub proof fn law_start_marker_begins_anew(body: Seq<Seq<char>>, lines: Seq<Seq<char>>)
    requires
        no_markers(body),
    ensures
        blocks_of_lines(seq![begin_marker()] + body + seq![begin_marker()] + lines, None)
            == blocks_of_lines(seq![begin_marker()] + lines, None),
{
    let all = seq![begin_marker()] + body + seq![begin_marker()] + lines;
    assert(all[0] == begin_marker());
    assert(all.drop_first() == body + (seq![begin_marker()] + lines));
    lemma_open_body(body, Seq::empty(), seq![begin_marker()] + lines);
    let again = seq![begin_marker()] + lines;
    assert(again[0] == begin_marker());
}

proof fn lemma_open_body(body: Seq<Seq<char>>, read: Seq<char>, lines: Seq<Seq<char>>)
    requires
        no_markers(body),
    ensures
        blocks_of_lines(body + lines, Some(read)) == blocks_of_lines(
            lines,
            Some(read + put_together(body)),
        ),
    decreases body.len(),
{
    let all = body + lines;
    if body.len() == 0 {
        assert(all == lines);
        assert(read + put_together(body) == read);
    } else {
        let later = body.drop_first();
        assert(all[0] == body[0]);
        assert(all.drop_first() == later + lines);
        assert(!is_marker(body[0]));
        assert(no_markers(later)) by {
            assert(forall|i: int| 0 <= i < later.len() ==> later[i] == body[i + 1]);
        }
        lemma_open_body(later, read + body[0], lines);
        assert(read + body[0] + put_together(later) == read + put_together(body));
    }
}

/// A certificate without an end marker is left out.
pub proof fn law_open_certificate_is_left_out(body: Seq<Seq<char>>)
    requires
        no_markers(body),
    ensures
        blocks_of_lines(seq![begin_marker()] + body, None).bodies.len() == 0,
        !blocks_of_lines(seq![begin_marker()] + body, None).stray_end,
{
    let all = seq![begin_marker()] + body;
    assert(all[0] == begin_marker());
    assert(all.drop_first() == body + Seq::<Seq<char>>::empty());
    lemma_open_body(body, Seq::empty(), Seq::empty());
}

/// An end marker without a start marker is noticed, and nothing behind it is
/// read.
pub proof fn law_stray_end_is_noticed(outside: Seq<Seq<char>>, lines: Seq<Seq<char>>)
    requires
        no_markers(outside),
    ensures
        blocks_of_lines(outside + seq![end_marker()] + lines, None).stray_end,
        blocks_of_lines(outside + seq![end_marker()] + lines, None).bodies.len() == 0,
{
    reveal_strlit("-----BEGIN CERTIFICATE-----");
    reveal_strlit("-----END CERTIFICATE-----");
    assert(begin_marker().len() != end_marker().len());
    let rest = seq![end_marker()] + lines;
    assert(outside + seq![end_marker()] + lines == outside + rest);
    crate::laws::law_text_outside_is_skipped(outside, rest);
    assert(rest[0] == end_marker());
}

/// A certificate is read before what follows it, and changes nothing about that:
/// whether there is a stray end marker behind it, and which bodies are.
pub proof fn law_certificate_is_put_before_the_others(
    outside: Seq<Seq<char>>,
    body: Seq<Seq<char>>,
    lines: Seq<Seq<char>>,
)
    requires
        no_markers(outside),
        no_markers(body),
    ensures
        ({
            let all = outside + (seq![begin_marker()] + body + seq![end_marker()] + lines);
            let read = blocks_of_lines(all, None);
            let rest = blocks_of_lines(lines, None);
            &&& read.bodies.len() == rest.bodies.len() + 1
            &&& read.bodies[0] == put_together(body)
            &&& read.bodies.drop_first() == rest.bodies
            &&& read.stray_end == rest.stray_end
        }),
{
    let block = seq![begin_marker()] + body + seq![end_marker()] + lines;
    crate::laws::law_text_outside_is_skipped(outside, block);
    crate::laws::law_block_is_read(body, lines);
    assert(block == crate::laws::block_lines(body) + lines);
    let rest = blocks_of_lines(lines, None);
    assert((seq![put_together(body)] + rest.bodies).drop_first() == rest.bodies);
}

/// The bodies that are found in a text are those between the markers on its
/// lines, without the white space around them.
pub proof fn law_bodies_found_are_those_in_the_text(text: &str, blocks: PemBlocks)
    requires
        call_ensures(find_pem_blocks, (text,), blocks),
    ensures
        ({
            let read = blocks_of_lines(trimmed_lines(text@), None);
            &&& blocks.stray_end == read.stray_end
            &&& blocks.bodies@.len() == read.bodies.len()
            &&& forall|i: int|
                0 <= i < read.bodies.len() ==> (#[trigger] blocks.bodies@[i])@ == read.bodies[i]
        }),
{
    let read = blocks_of_lines(trimmed_lines(text@), None);
    let found = crate::pem::texts_of(blocks.bodies@);
    assert(found == read.bodies);
    assert forall|i: int| 0 <= i < read.bodies.len() implies (#[trigger] blocks.bodies@[i])@
        == read.bodies[i] by {
        assert(found[i] == blocks.bodies@[i]@);
    }
}

/// Each body is decoded by itself, as the base64 text that it is.
pub proof fn law_each_body_is_decoded(bodies: Seq<Seq<char>>, i: int)
    requires
        0 <= i < bodies.len(),
    ensures
        decoded_bodies(bodies).len() == bodies.len(),
        decoded_bodies(bodies)[i] is Ok <==> base64_decoded(bodies[i]) is Ok,
        base64_decoded(bodies[i]) is Ok ==> decoded_bodies(bodies)[i]->Ok_0 == base64_decoded(
            bodies[i],
        )->Ok_0,
        base64_decoded(bodies[i]) is Err ==> decoded_bodies(bodies)[i]->Err_0 == decode_error_text(
            base64_decoded(bodies[i])->Err_0,
        ),
{
}

/// A fault is the first in its list, if there is any.
pub proof fn law_first_fault_is_first(decoded: Seq<Result<Seq<u8>, Seq<char>>>, i: int)
    requires
        0 <= i < decoded.len(),
        decoded[i] is Err,
        forall|j: int| 0 <= j < i ==> (#[trigger] decoded[j]) is Ok,
    ensures
        first_fault(decoded) == Some(decoded[i]->Err_0),
    decreases i,
{
    if i > 0 {
        let rest = decoded.drop_first();
        assert(decoded[0] is Ok);
        assert(rest[i - 1] == decoded[i]);
        assert forall|j: int| 0 <= j < i - 1 implies (#[trigger] rest[j]) is Ok by {
            assert(rest[j] == decoded[j + 1]);
        }
        law_first_fault_is_first(rest, i - 1);
    }
}

proof fn lemma_all_decoded(decoded: Seq<Result<Seq<u8>, Seq<char>>>)
    requires
        forall|j: int| 0 <= j < decoded.len() ==> (#[trigger] decoded[j]) is Ok,
    ensures
        first_fault(decoded) is None,
    decreases decoded.len(),
{
    if decoded.len() > 0 {
        let rest = decoded.drop_first();
        assert(decoded[0] is Ok);
        assert forall|j: int| 0 <= j < rest.len() implies (#[trigger] rest[j]) is Ok by {
            assert(rest[j] == decoded[j + 1]);
        }
        lemma_all_decoded(rest);
    }
}

/// Where each body was decoded, there is one, and no end marker stood alone, all
/// of them are collected in order, none left out.
pub proof fn law_all_certificates_are_collected(
    path: &str,
    decoded: Vec<Result<Vec<u8>, String>>,
    r: Result<Vec<Vec<u8>>, DnsError>,
)
    requires
        call_ensures(collect_certs, (path, &decoded, false), r),
        decoded@.len() > 0,
        forall|i: int| 0 <= i < decoded@.len() ==> (#[trigger] decoded@[i]) is Ok,
    ensures
        r is Ok,
        r->Ok_0@.len() == decoded@.len(),
        forall|i: int|
            0 <= i < decoded@.len() ==> (#[trigger] r->Ok_0@[i])@ == decoded@[i]->Ok_0@,
{
    let all = decoded_of(decoded@);
    assert forall|i: int| 0 <= i < all.len() implies (#[trigger] all[i]) is Ok by {
        assert(decoded@[i] is Ok);
    }
    lemma_all_decoded(all);
    let certs = bytes_of(r->Ok_0@);
    assert(certs_view(r) == certs_of(path@, all, false));
    assert(certs == certs_of(path@, all, false)->Ok_0);
    assert(certs.len() == r->Ok_0@.len());
    assert forall|i: int| 0 <= i < decoded@.len() implies (#[trigger] r->Ok_0@[i])@
        == decoded@[i]->Ok_0@ by {
        assert(certs[i] == r->Ok_0@[i]@);
        assert(all[i] == Ok::<Seq<u8>, Seq<char>>(decoded@[i]->Ok_0@));
        assert(certs[i] == all[i]->Ok_0);
    }
}

/// A body that could not be decoded is told with why it could not, whatever
/// stands behind it. Else a lone end marker is told, and else that there is no
/// certificate.
pub proof fn law_faults_are_told(
    path: &str,
    decoded: Vec<Result<Vec<u8>, String>>,
    stray_end: bool,
    r: Result<Vec<Vec<u8>>, DnsError>,
)
    requires
        call_ensures(collect_certs, (path, &decoded, stray_end), r),
    ensures
        r is Err ==> r->Err_0.subject@ == path@,
        forall|i: int|
            0 <= i < decoded@.len() && (#[trigger] decoded@[i]) is Err && (forall|j: int|
                0 <= j < i ==> (#[trigger] decoded@[j]) is Ok) ==> {
                &&& r is Err
                &&& r->Err_0.kind == DnsErrorKind::PemBodyNotBase64
                &&& r->Err_0.cause is Some
                &&& r->Err_0.cause->0@ == decoded@[i]->Err_0@
            },
        (forall|i: int| 0 <= i < decoded@.len() ==> (#[trigger] decoded@[i]) is Ok) ==> {
            &&& stray_end ==> r is Err && r->Err_0.kind == DnsErrorKind::PemEndWithoutStart
            &&& !stray_end && decoded@.len() == 0 ==> r is Err && r->Err_0.kind
                == DnsErrorKind::PemWithoutCertificates
            &&& r is Err ==> r->Err_0.cause is None
        },
{
    let all = decoded_of(decoded@);
    assert forall|i: int|
        0 <= i < decoded@.len() && (#[trigger] decoded@[i]) is Err && (forall|j: int|
            0 <= j < i ==> (#[trigger] decoded@[j]) is Ok) implies {
        &&& r is Err
        &&& r->Err_0.kind == DnsErrorKind::PemBodyNotBase64
        &&& r->Err_0.cause is Some
        &&& r->Err_0.cause->0@ == decoded@[i]->Err_0@
    } by {
        assert(all[i] == Err::<Seq<u8>, Seq<char>>(decoded@[i]->Err_0@));
        assert forall|j: int| 0 <= j < i implies (#[trigger] all[j]) is Ok by {
            assert(decoded@[j] is Ok);
        }
        law_first_fault_is_first(all, i);
    }
    if forall|i: int| 0 <= i < decoded@.len() ==> (#[trigger] decoded@[i]) is Ok {
        assert forall|i: int| 0 <= i < all.len() implies (#[trigger] all[i]) is Ok by {
            assert(decoded@[i] is Ok);
        }
        lemma_all_decoded(all);
    }
}

/// The certificates in a PEM text are all those that its bodies stand for, in
/// order, none left out.
pub proof fn law_pem_gives_every_certificate(
    path: &str,
    content: &str,
    blocks: PemBlocks,
    r: Result<Vec<Vec<u8>>, DnsError>,
)
    requires
        call_ensures(find_pem_blocks, (content,), blocks),
        call_ensures(parse_pem_certs, (path, content), r),
    ensures
        r is Ok <==> {
            &&& blocks.bodies@.len() > 0
            &&& !blocks.stray_end
            &&& forall|i: int|
                0 <= i < blocks.bodies@.len() ==> base64_decoded(
                    (#[trigger] blocks.bodies@[i])@,
                ) is Ok
        },
        r is Ok ==> {
            &&& r->Ok_0@.len() == blocks.bodies@.len()
            &&& forall|i: int|
                0 <= i < blocks.bodies@.len() ==> (#[trigger] r->Ok_0@[i])@ == base64_decoded(
                    blocks.bodies@[i]@,
                )->Ok_0
        },
        r is Err ==> r->Err_0.subject@ == path@,
{
    let bodies = crate::pem::texts_of(blocks.bodies@);
    let decoded = decoded_bodies(bodies);
    assert(bodies == pem_blocks(content@).bodies);
    if r is Ok {
        let certs = bytes_of(r->Ok_0@);
        assert(certs_view(r) == pem_certs(path@, content@));
        assert(certs == pem_certs(path@, content@)->Ok_0);
        assert(certs.len() == r->Ok_0@.len());
        lemma_no_fault(decoded);
        assert forall|i: int| 0 <= i < blocks.bodies@.len() implies base64_decoded(
            (#[trigger] blocks.bodies@[i])@,
        ) is Ok by {
            assert(decoded[i] is Ok);
        }
        assert forall|i: int| 0 <= i < blocks.bodies@.len() implies (#[trigger] r->Ok_0@[i])@
            == base64_decoded(blocks.bodies@[i]@)->Ok_0 by {
            assert(certs[i] == r->Ok_0@[i]@);
            assert(decoded[i] is Ok);
            assert(certs[i] == decoded[i]->Ok_0);
        }
    }
    if blocks.bodies@.len() > 0 && !blocks.stray_end && (forall|i: int|
        0 <= i < blocks.bodies@.len() ==> base64_decoded((#[trigger] blocks.bodies@[i])@) is Ok) {
        assert forall|i: int| 0 <= i < decoded.len() implies (#[trigger] decoded[i]) is Ok by {
            assert(base64_decoded(blocks.bodies@[i]@) is Ok);
        }
        lemma_all_decoded(decoded);
    }
}

/// A PEM text that lists certificates gives each of them: as many, in order, each
/// as the bytes that its lines, put together, stand for.
pub proof fn law_listed_certificates_are_given(
    path: Seq<char>,
    bodies: Seq<Seq<Seq<char>>>,
    lines: Seq<Seq<char>>,
)
    requires
        bodies.len() > 0,
        forall|i: int| 0 <= i < lines.len() ==> !(#[trigger] lines[i]).contains('\n'),
        lines.map_values(|line: Seq<char>| trim(line)) == crate::laws::all_block_lines(bodies),
        forall|i: int| 0 <= i < bodies.len() ==> no_markers(#[trigger] bodies[i]),
        forall|i: int|
            0 <= i < bodies.len() ==> base64_decoded(put_together(#[trigger] bodies[i])) is Ok,
    ensures
        ({
            let r = pem_certs(path, text_of_lines(lines));
            &&& r is Ok
            &&& r->Ok_0.len() == bodies.len()
            &&& forall|i: int|
                0 <= i < bodies.len() ==> #[trigger] r->Ok_0[i] == base64_decoded(
                    put_together(bodies[i]),
                )->Ok_0
        }),
{
    crate::laws::law_pem_text_reads_back(bodies, lines);
    let read = bodies.map_values(|body: Seq<Seq<char>>| put_together(body));
    let decoded = decoded_bodies(read);
    assert forall|i: int| 0 <= i < decoded.len() implies (#[trigger] decoded[i]) is Ok by {
        assert(base64_decoded(put_together(bodies[i])) is Ok);
    }
    lemma_all_decoded(decoded);
    let r = pem_certs(path, text_of_lines(lines));
    assert forall|i: int| 0 <= i < bodies.len() implies #[trigger] r->Ok_0[i] == base64_decoded(
        put_together(bodies[i]),
    )->Ok_0 by {
        assert(decoded[i] is Ok);
    }
}

/// An error is about what it was made for, and keeps what led to it.
pub proof fn law_error_keeps_its_parts(
    kind: DnsErrorKind,
    subject: &str,
    cause: String,
    plain: DnsError,
    caused: DnsError,
)
    requires
        call_ensures(DnsError::new, (kind, subject), plain),
        call_ensures(DnsError::because, (kind, subject, cause), caused),
    ensures
        plain.kind == kind && caused.kind == kind,
        plain.subject@ == subject@ && caused.subject@ == subject@,
        plain.cause is None,
        caused.cause is Some && caused.cause->0@ == cause@,
{
}

/// A message tells what the failure is about, and depends on nothing else but the
/// kind of the failure.
pub proof fn law_message_tells_the_subject(
    first: DnsError,
    second: DnsError,
    first_text: String,
    second_text: String,
)
    requires
        call_ensures(DnsError::message, (&first,), first_text),
        call_ensures(DnsError::message, (&second,), second_text),
        first.kind == second.kind,
    ensures
        first_text@.len() - first.subject@.len() == second_text@.len() - second.subject@.len(),
        first.subject@ == second.subject@ ==> first_text@ == second_text@,
        exists|at: int|
            {
                &&& 0 <= at
                &&& at + first.subject@.len() <= first_text@.len()
                &&& #[trigger] first_text@.subrange(at, at + first.subject@.len())
                    == first.subject@
            },
{
    let head = crate::error::message_head(first.kind);
    let at = head.len() as int;
    assert(first_text@.subrange(at, at + first.subject@.len()) == first.subject@);
}

/// The messages about PEM files, in full.
pub proof fn law_pem_messages(error: DnsError, text: String)
    requires
        call_ensures(DnsError::message, (&error,), text),
    ensures
        error.kind == DnsErrorKind::PemWithoutCertificates ==> text@
            == "no PEM certificates found in "@ + error.subject@,
        error.kind == DnsErrorKind::PemBodyNotBase64 ==> text@
            == "malformed base64 in PEM file "@ + error.subject@,
        error.kind == DnsErrorKind::PemEndWithoutStart ==> text@ == "malformed PEM in "@
            + error.subject@ + ": end marker without start marker"@,
        error.kind == DnsErrorKind::CaNotCertificate ==> text@
            == "invalid certificate in PEM file "@ + error.subject@,
{
    reveal_strlit("");
    assert(""@ == Seq::<char>::empty());
}

} // verus!
