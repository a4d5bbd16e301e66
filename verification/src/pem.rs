//! Certificates in PEM files.

use vstd::prelude::*;

use crate::error::{failure, failure_because, DnsError, DnsErrorKind, DnsErrorView};
use crate::text::{
    chars_of, find_line_end, lemma_line_end, line_end, push_range, range_is, trim_range,
    trimmed_lines,
};

verus! {

#[verifier::external_type_specification]
#[verifier::external_body]
pub struct ExBase64DecodeError(base64::DecodeError);

/// The line before a certificate.
pub open spec fn begin_marker() -> Seq<char> {
    "-----BEGIN CERTIFICATE-----"@
}

/// The line after a certificate.
pub open spec fn end_marker() -> Seq<char> {
    "-----END CERTIFICATE-----"@
}

/// The bodies of the certificates in a PEM text, up to the first end marker
/// that no start marker belongs to.
#[derive(Debug)]
pub struct PemBlocks {
    pub bodies: Vec<String>,
    /// Whether there is an end marker that no start marker belongs to.
    pub stray_end: bool,
}

/// What [`PemBlocks`] hold.
#[verifier::ext_equal]
pub struct PemBlocksView {
    pub bodies: Seq<Seq<char>>,
    pub stray_end: bool,
}

/// What a list of strings holds.
pub open spec fn texts_of(texts: Seq<String>) -> Seq<Seq<char>> {
    texts.map_values(|text: String| text@)
}

/// What a list of byte strings holds.
pub open spec fn bytes_of(bytes: Seq<Vec<u8>>) -> Seq<Seq<u8>> {
    bytes.map_values(|bytes: Vec<u8>| bytes@)
}

/// What a list of decoded texts holds: the bytes of each, or why it has none.
pub open spec fn decoded_of(decoded: Seq<Result<Vec<u8>, String>>) -> Seq<
    Result<Seq<u8>, Seq<char>>,
> {
    decoded.map_values(
        |bytes: Result<Vec<u8>, String>|
            match bytes {
                Ok(bytes) => Ok(bytes@),
                Err(text) => Err(text@),
            },
    )
}

impl View for PemBlocks {
    type V = PemBlocksView;

    open spec fn view(&self) -> PemBlocksView {
        PemBlocksView { bodies: texts_of(self.bodies@), stray_end: self.stray_end }
    }
}

/// A body before the others.
pub open spec fn with_body(body: Seq<char>, blocks: PemBlocksView) -> PemBlocksView {
    PemBlocksView { bodies: seq![body] + blocks.bodies, stray_end: blocks.stray_end }
}

/// The certificates in a list of lines. `open` is what was read so far of a
/// certificate that a start marker has begun. A start marker begins a
/// certificate anew, lines outside of one are skipped, and one without an end
/// marker is left out.
pub open spec fn blocks_of_lines(lines: Seq<Seq<char>>, open: Option<Seq<char>>) -> PemBlocksView
    decreases lines.len(),
{
    if lines.len() == 0 {
        PemBlocksView { bodies: Seq::empty(), stray_end: false }
    } else {
        let line = lines[0];
        let rest = lines.drop_first();
        if line == begin_marker() {
            blocks_of_lines(rest, Some(Seq::empty()))
        } else if line == end_marker() {
            match open {
                Some(body) => with_body(body, blocks_of_lines(rest, None)),
                None => PemBlocksView { bodies: Seq::empty(), stray_end: true },
            }
        } else {
            match open {
                Some(body) => blocks_of_lines(rest, Some(body + line)),
                None => blocks_of_lines(rest, None),
            }
        }
    }
}

/// The certificates in a PEM text.
pub open spec fn pem_blocks(text: Seq<char>) -> PemBlocksView {
    blocks_of_lines(trimmed_lines(text), None)
}

/// Finds the bodies of the certificates in a PEM text: the lines between two
/// markers, put together.
pub fn find_pem_blocks(text: &str) -> (blocks: PemBlocks)
    ensures
        blocks@ == pem_blocks(text@),
{
    let begin = chars_of("-----BEGIN CERTIFICATE-----");
    let end_of_block = chars_of("-----END CERTIFICATE-----");
    let chars = chars_of(text);
    let mut bodies: Vec<String> = Vec::new();
    let mut open: bool = false;
    let mut body = String::new();
    let mut start: usize = 0;
    proof {
        assert(chars@.skip(0) == chars@);
        assert(Seq::<Seq<char>>::empty() + pem_blocks(text@).bodies == pem_blocks(text@).bodies);
    }
    while start < chars.len()
        invariant
            chars@ == text@,
            begin@ == begin_marker(),
            end_of_block@ == end_marker(),
            start <= chars.len(),
            ({
                let rest = blocks_of_lines(
                    trimmed_lines(chars@.skip(start as int)),
                    if open {
                        Some(body@)
                    } else {
                        None
                    },
                );
                &&& pem_blocks(text@).bodies == texts_of(bodies@) + rest.bodies
                &&& pem_blocks(text@).stray_end == rest.stray_end
            }),
        decreases chars.len() - start,
    {
        let ghost left = chars@.skip(start as int);
        let end = find_line_end(&chars, start);
        let (from, to) = trim_range(&chars, start, end);
        let next: usize = if end < chars.len() {
            end + 1
        } else {
            end
        };
        let ghost lines = trimmed_lines(left);
        let ghost line = chars@.subrange(from as int, to as int);
        let ghost after = trimmed_lines(chars@.skip(next as int));
        proof {
            lemma_line_end(left);
            if end < chars.len() {
                assert(left.take(line_end(left)) == chars@.subrange(start as int, end as int));
                assert(left.skip(line_end(left) + 1) == chars@.skip(next as int));
            } else {
                assert(left == chars@.subrange(start as int, end as int));
                assert(chars@.skip(next as int) == Seq::<char>::empty());
            }
            assert(lines[0] == line);
            assert(lines.drop_first() == after);
        }
        if range_is(&chars, from, to, &begin) {
            body = String::new();
            open = true;
        } else if range_is(&chars, from, to, &end_of_block) {
            if !open {
                assert(texts_of(bodies@) + Seq::<Seq<char>>::empty() == texts_of(bodies@));
                return PemBlocks { bodies, stray_end: true };
            }
            let ghost before = bodies@;
            let ghost rest = blocks_of_lines(after, None);
            bodies.push(body);
            proof {
                assert(texts_of(bodies@) == texts_of(before).push(body@));
                assert(texts_of(before) + (seq![body@] + rest.bodies) == texts_of(bodies@)
                    + rest.bodies);
            }
            body = String::new();
            open = false;
        } else if open {
            push_range(&mut body, &chars, from, to);
        }
        start = next;
    }
    proof {
        assert(chars@.skip(start as int) == Seq::<char>::empty());
        assert(texts_of(bodies@) + Seq::<Seq<char>>::empty() == texts_of(bodies@));
    }
    PemBlocks { bodies, stray_end: false }
}

/// The bytes that a base64 text stands for, or why it stands for none.
pub uninterp spec fn base64_decoded(text: Seq<char>) -> Result<Seq<u8>, base64::DecodeError>;

/// `decode` of the `STANDARD` engine of `base64` gives the bytes that a text
/// in the standard alphabet with padding stands for, and fails on any other
/// text.
#[verifier::external_body]
fn decode_base64(text: &str) -> (r: Result<Vec<u8>, base64::DecodeError>)
    ensures
        match r {
            Ok(bytes) => base64_decoded(text@) == Ok::<Seq<u8>, base64::DecodeError>(bytes@),
            Err(error) => base64_decoded(text@) == Err::<Seq<u8>, base64::DecodeError>(error),
        },
{
    base64::Engine::decode(&base64::engine::general_purpose::STANDARD, text)
}

/// Why a text is not base64, in words.
pub uninterp spec fn decode_error_text(error: base64::DecodeError) -> Seq<char>;

/// `DecodeError::to_string` says why a text is not base64.
#[verifier::external_body]
fn decode_error_to_string(error: &base64::DecodeError) -> (text: String)
    ensures
        text@ == decode_error_text(*error),
{
    error.to_string()
}

/// The bytes that a base64 text stands for, or why it stands for none, in
/// words.
pub open spec fn decoded_body(body: Seq<char>) -> Result<Seq<u8>, Seq<char>> {
    match base64_decoded(body) {
        Ok(bytes) => Ok(bytes),
        Err(error) => Err(decode_error_text(error)),
    }
}

/// The bytes that each of a list of base64 texts stands for.
pub open spec fn decoded_bodies(bodies: Seq<Seq<char>>) -> Seq<Result<Seq<u8>, Seq<char>>> {
    bodies.map_values(|body: Seq<char>| decoded_body(body))
}

/// Decodes each of a list of base64 texts.
fn decode_bodies(bodies: &Vec<String>) -> (decoded: Vec<Result<Vec<u8>, String>>)
    ensures
        decoded_of(decoded@) == decoded_bodies(texts_of(bodies@)),
{
    let mut decoded: Vec<Result<Vec<u8>, String>> = Vec::new();
    let mut i: usize = 0;
    while i < bodies.len()
        invariant
            i <= bodies.len(),
            decoded.len() == i,
            forall|j: int|
                0 <= j < i ==> #[trigger] decoded_of(decoded@)[j] == decoded_body(bodies@[j]@),
        decreases bodies.len() - i,
    {
        let ghost before = decoded@;
        let bytes = match decode_base64(bodies[i].as_str()) {
            Ok(bytes) => Ok(bytes),
            Err(error) => Err(decode_error_to_string(&error)),
        };
        decoded.push(bytes);
        proof {
            assert forall|j: int| 0 <= j < i + 1 implies #[trigger] decoded_of(decoded@)[j]
                == decoded_body(bodies@[j]@) by {
                if j < i {
                    assert(decoded_of(before)[j] == decoded_body(bodies@[j]@));
                }
            }
        }
        i = i + 1;
    }
    assert(decoded_of(decoded@) == decoded_bodies(texts_of(bodies@)));
    decoded
}

/// What a result of [`parse_pem_certs`] tells.
pub open spec fn certs_view(r: Result<Vec<Vec<u8>>, DnsError>) -> Result<
    Seq<Seq<u8>>,
    DnsErrorView,
> {
    match r {
        Ok(certs) => Ok(bytes_of(certs@)),
        Err(error) => Err(error@),
    }
}

/// Why the first of a list of texts that could not be decoded could not be, if
/// there is one.
pub open spec fn first_fault(decoded: Seq<Result<Seq<u8>, Seq<char>>>) -> Option<Seq<char>>
    decreases decoded.len(),
{
    if decoded.len() == 0 {
        None
    } else {
        match decoded[0] {
            Err(text) => Some(text),
            Ok(_) => first_fault(decoded.drop_first()),
        }
    }
}

/// Where there is no fault in a list, each of its texts was decoded.
pub proof fn lemma_no_fault(decoded: Seq<Result<Seq<u8>, Seq<char>>>)
    requires
        first_fault(decoded) is None,
    ensures
        forall|i: int| 0 <= i < decoded.len() ==> decoded[i] is Ok,
    decreases decoded.len(),
{
    if decoded.len() > 0 {
        let rest = decoded.drop_first();
        lemma_no_fault(rest);
        assert(forall|i: int| 1 <= i < decoded.len() ==> decoded[i] == rest[i - 1]);
    }
}

/// The certificates that decoded bodies make up: all of them in order, unless
/// one could not be decoded, an end marker stood alone, or there is none.
pub open spec fn certs_of(
    path: Seq<char>,
    decoded: Seq<Result<Seq<u8>, Seq<char>>>,
    stray_end: bool,
) -> Result<Seq<Seq<u8>>, DnsErrorView> {
    match first_fault(decoded) {
        Some(cause) => Err(failure_because(DnsErrorKind::PemBodyNotBase64, path, cause)),
        None => if stray_end {
            Err(failure(DnsErrorKind::PemEndWithoutStart, path))
        } else if decoded.len() == 0 {
            Err(failure(DnsErrorKind::PemWithoutCertificates, path))
        } else {
            Ok(decoded.map_values(|bytes: Result<Seq<u8>, Seq<char>>| bytes->Ok_0))
        },
    }
}

/// The certificates in a PEM text that was read from `path`.
pub open spec fn pem_certs(path: Seq<char>, text: Seq<char>) -> Result<
    Seq<Seq<u8>>,
    DnsErrorView,
> {
    let blocks = pem_blocks(text);
    certs_of(path, decoded_bodies(blocks.bodies), blocks.stray_end)
}

/// Collects the certificates that were decoded from the PEM file at `path`.
pub fn collect_certs(
    path: &str,
    decoded: &Vec<Result<Vec<u8>, String>>,
    stray_end: bool,
) -> (r: Result<Vec<Vec<u8>>, DnsError>)
    ensures
        certs_view(r) == certs_of(path@, decoded_of(decoded@), stray_end),
{
    let mut certs: Vec<Vec<u8>> = Vec::new();
    let mut i: usize = 0;
    let ghost all = decoded_of(decoded@);
    assert(all.skip(0) == all);
    while i < decoded.len()
        invariant
            i <= decoded.len(),
            certs.len() == i,
            all == decoded_of(decoded@),
            first_fault(all) == first_fault(all.skip(i as int)),
            forall|j: int| 0 <= j < i ==> #[trigger] all[j] == Ok::<Seq<u8>, Seq<char>>(certs@[j]@),
        decreases decoded.len() - i,
    {
        assert(all.skip(i as int)[0] == all[i as int]);
        assert(all.skip(i as int).drop_first() == all.skip(i + 1));
        match &decoded[i] {
            Ok(bytes) => {
                let ghost before = certs@;
                certs.push(bytes.clone());
                proof {
                    assert(certs@[i as int]@ == bytes@);
                    assert(all[i as int] == Ok::<Seq<u8>, Seq<char>>(bytes@));
                    assert forall|j: int| 0 <= j < i + 1 implies #[trigger] all[j] == Ok::<
                        Seq<u8>,
                        Seq<char>,
                    >(certs@[j]@) by {
                        if j < i {
                            assert(certs@[j] == before[j]);
                        }
                    }
                }
            },
            Err(text) => {
                assert(all[i as int] == Err::<Seq<u8>, Seq<char>>(text@));
                return Err(DnsError::because(DnsErrorKind::PemBodyNotBase64, path, text.clone()));
            },
        }
        i = i + 1;
    }
    if stray_end {
        return Err(DnsError::new(DnsErrorKind::PemEndWithoutStart, path));
    }
    if certs.len() == 0 {
        return Err(DnsError::new(DnsErrorKind::PemWithoutCertificates, path));
    }
    assert(bytes_of(certs@) == all.map_values(|bytes: Result<Seq<u8>, Seq<char>>| bytes->Ok_0));
    Ok(certs)
}

/// Reads the certificates, as DER, from the content of the PEM file at
/// `path`.
pub fn parse_pem_certs(path: &str, content: &str) -> (r: Result<Vec<Vec<u8>>, DnsError>)
    ensures
        certs_view(r) == pem_certs(path@, content@),
{
    let blocks = find_pem_blocks(content);
    let decoded = decode_bodies(&blocks.bodies);
    collect_certs(path, &decoded, blocks.stray_end)
}

} // verus!
