//! Reading the material of a content signature: root hashes and
//! certificate chains.
//!
//! A root hash is written as hexadecimal bytes separated by colons. A
//! certificate chain is written as text; each certificate stands between a
//! line that holds the begin marker and a line that holds the end marker, as
//! lines of hexadecimal digits.

use vstd::prelude::*;
use vstd::utf8::{encode_utf8, valid_utf8};

verus! {

/// Why the material could not be read.
#[derive(Debug, Clone, PartialEq, Eq)]
pub enum ErrorKind {
    /// The root hash is not 32 bytes in hexadecimal, separated by colons.
    RootHashFormatError(String),
    /// The certificate chain is not in the expected form.
    PEMFormatError(String),
}

/// An [`ErrorKind`] as a mathematical value.
pub enum ErrorView {
    RootHashFormatError(Seq<char>),
    PEMFormatError(Seq<char>),
}

impl View for ErrorKind {
    type V = ErrorView;

    open spec fn view(&self) -> ErrorView {
        match self {
            ErrorKind::RootHashFormatError(m) => ErrorView::RootHashFormatError(m@),
            ErrorKind::PEMFormatError(m) => ErrorView::PEMFormatError(m@),
        }
    }
}

/// The number of bytes of a root hash.
pub const ROOT_HASH_LEN: usize = 32;

/// The value of a hexadecimal digit, in either case.
pub open spec fn hex_digit(c: u8) -> Option<u8> {
    if 0x30 <= c <= 0x39 {
        Some((c - 0x30) as u8)
    } else if 0x41 <= c <= 0x46 {
        Some((c - 0x41 + 10) as u8)
    } else if 0x61 <= c <= 0x66 {
        Some((c - 0x61 + 10) as u8)
    } else {
        None
    }
}

/// Whether `s` is an even number of hexadecimal digits.
pub open spec fn is_hex(s: Seq<u8>) -> bool {
    &&& s.len() % 2 == 0
    &&& forall|i: int| 0 <= i < s.len() ==> hex_digit(#[trigger] s[i]) is Some
}

/// The bytes that the hexadecimal digits `s` stand for, two digits to the
/// byte; `None` where `s` is not an even number of such digits.
pub open spec fn hex_decoded(s: Seq<u8>) -> Option<Seq<u8>> {
    if is_hex(s) {
        Some(
            Seq::new(
                (s.len() / 2) as nat,
                |i: int|
                    (16 * hex_digit(s[2 * i]).unwrap() + hex_digit(s[2 * i + 1]).unwrap()) as u8,
            ),
        )
    } else {
        None
    }
}

/// What the decoder says of text that is not hexadecimal.
pub uninterp spec fn hex_error_text(data: Seq<u8>) -> Seq<char>;

/// What the standard library says of bytes that are not UTF-8.
pub uninterp spec fn utf8_error_text(data: Seq<u8>) -> Seq<char>;

/// Calls `hex::decode`: the bytes that the digits stand for, and where
/// `data` is not an even number of hexadecimal digits, the decoder's message.
#[verifier::external_body]
fn hex_decode(data: &Vec<u8>) -> (r: Result<Vec<u8>, String>)
    ensures
        r is Ok <==> hex_decoded(data@) is Some,
        r matches Ok(v) ==> Some(v@) == hex_decoded(data@),
        r matches Err(m) ==> m@ == hex_error_text(data@),
{
    hex::decode(data).map_err(|e| e.to_string())
}

/// Calls `std::str::from_utf8`: nothing where `data` is UTF-8, and the
/// standard library's message where it is not.
#[verifier::external_body]
fn utf8_error(data: &[u8]) -> (r: Option<String>)
    ensures
        r is None <==> valid_utf8(data@),
        r matches Some(m) ==> m@ == utf8_error_text(data@),
{
    std::str::from_utf8(data).err().map(|e| e.to_string())
}

/// The pieces of `s` between the separators `sep`: one more than there are
/// separators, some of them empty where separators meet each other or an
/// end.
pub open spec fn pieces(s: Seq<u8>, sep: u8) -> Seq<Seq<u8>>
    decreases s.len(),
{
    if s.len() == 0 {
        seq![Seq::<u8>::empty()]
    } else {
        let before = pieces(s.drop_last(), sep);
        if s.last() == sep {
            before.push(Seq::<u8>::empty())
        } else {
            before.drop_last().push(before.last().push(s.last()))
        }
    }
}

/// The bytes that the pieces stand for, one after the other; `None` where a
/// piece is not an even number of hexadecimal digits.
pub open spec fn decoded_pieces(ps: Seq<Seq<u8>>) -> Option<Seq<u8>>
    decreases ps.len(),
{
    if ps.len() == 0 {
        Some(Seq::<u8>::empty())
    } else {
        match (decoded_pieces(ps.drop_last()), hex_decoded(ps.last())) {
            (Some(a), Some(b)) => Some(a + b),
            _ => None,
        }
    }
}

/// The root hash that `input` stands for: the bytes of its pieces between
/// colons, where all pieces are hexadecimal and the bytes are 32.
pub open spec fn root_hash_of(input: Seq<u8>) -> Option<Seq<u8>> {
    match decoded_pieces(pieces(input, 0x3a)) {
        Some(hash) => if hash.len() == ROOT_HASH_LEN {
            Some(hash)
        } else {
            None
        },
        None => None,
    }
}

proof fn lemma_pieces_step(s: Seq<u8>, i: int, sep: u8, done: Seq<Seq<u8>>, cur: Seq<u8>)
    requires
        0 <= i < s.len(),
        pieces(s.take(i), sep) == done.push(cur),
    ensures
        s[i] == sep ==> pieces(s.take(i + 1), sep) == done.push(cur).push(Seq::<u8>::empty()),
        s[i] != sep ==> pieces(s.take(i + 1), sep) == done.push(cur.push(s[i])),
{
    let t = s.take(i + 1);
    assert(t.drop_last() =~= s.take(i));
}

fn append(target: &mut Vec<u8>, more: &Vec<u8>)
    ensures
        final(target)@ == old(target)@ + more@,
{
    let mut k: usize = 0;
    while k < more.len()
        invariant
            k <= more@.len(),
            target@ == old(target)@ + more@.take(k as int),
        decreases more@.len() - k,
    {
        target.push(more[k]);
        k = k + 1;
    }
}

/// Reads a root hash: 32 bytes in hexadecimal, separated by colons wherever
/// the writer liked between whole bytes. Anything else fails with
/// `RootHashFormatError`, which holds the input.
pub fn decode_root_hash(input: &str) -> (r: Result<Vec<u8>, ErrorKind>)
    ensures
        r is Ok <==> root_hash_of(encode_utf8(input@)) is Some,
        r matches Ok(hash) ==> Some(hash@) == root_hash_of(encode_utf8(input@)),
        r matches Err(e) ==> e@ == ErrorView::RootHashFormatError(input@),
{
    let bytes = input.as_bytes();
    let mut result: Vec<u8> = Vec::new();
    let mut byte_hex: Vec<u8> = Vec::new();
    let mut well_formed = true;
    let ghost mut done: Seq<Seq<u8>> = Seq::empty();
    let mut i: usize = 0;
    while i < bytes.len()
        invariant
            i <= bytes@.len(),
            pieces(bytes@.take(i as int), 0x3a) == done.push(byte_hex@),
            decoded_pieces(done) == (if well_formed {
                Some(result@)
            } else {
                None
            }),
        decreases bytes@.len() - i,
    {
        proof {
            lemma_pieces_step(bytes@, i as int, 0x3a, done, byte_hex@);
        }
        if bytes[i] == 0x3a {
            let ghost piece = byte_hex@;
            let ghost before = done;
            if well_formed {
                match hex_decode(&byte_hex) {
                    Ok(v) => {
                        append(&mut result, &v);
                    },
                    Err(_) => {
                        well_formed = false;
                    },
                }
            }
            byte_hex = Vec::new();
            proof {
                done = before.push(piece);
                assert(done.drop_last() =~= before);
            }
        } else {
            byte_hex.push(bytes[i]);
        }
        i = i + 1;
    }
    proof {
        assert(bytes@.take(i as int) =~= bytes@);
        let all = done.push(byte_hex@);
        assert(all.drop_last() =~= done);
    }
    if well_formed {
        match hex_decode(&byte_hex) {
            Ok(v) => {
                append(&mut result, &v);
            },
            Err(_) => {
                well_formed = false;
            },
        }
    }
    if !well_formed || result.len() != ROOT_HASH_LEN {
        return Err(ErrorKind::RootHashFormatError(input.to_owned()));
    }
    Ok(result)
}

/// The text that begins a certificate, wherever in its line it stands.
pub open spec fn begin_marker() -> Seq<u8> {
    seq![
        0x2d, 0x2d, 0x2d, 0x2d, 0x2d, 0x42, 0x45, 0x47, 0x49, 0x4e, 0x20, 0x43, 0x45, 0x52, 0x54,
        0x49, 0x46, 0x49, 0x43, 0x41, 0x54, 0x45,
    ]
}

/// The text that ends a certificate, wherever in its line it stands.
pub open spec fn end_marker() -> Seq<u8> {
    seq![
        0x2d, 0x2d, 0x2d, 0x2d, 0x2d, 0x45, 0x4e, 0x44, 0x20, 0x43, 0x45, 0x52, 0x54, 0x49, 0x46,
        0x49, 0x43, 0x41, 0x54, 0x45,
    ]
}

/// Whether `pattern` stands in `line` from the place `at` on.
pub open spec fn occurs_at(line: Seq<u8>, pattern: Seq<u8>, at: int) -> bool {
    &&& 0 <= at
    &&& at + pattern.len() <= line.len()
    &&& forall|j: int| 0 <= j < pattern.len() ==> line[at + j] == #[trigger] pattern[j]
}

/// Whether `pattern` stands somewhere in `line`.
pub open spec fn contains(line: Seq<u8>, pattern: Seq<u8>) -> bool {
    exists|at: int| occurs_at(line, pattern, at)
}

/// What has been read of a certificate chain.
pub struct PemState {
    /// The certificates that are complete.
    pub blocks: Seq<Seq<u8>>,
    /// The bytes of the certificate that is being read.
    pub block: Seq<u8>,
    /// Whether a certificate is being read.
    pub read: bool,
}

/// What can be wrong with a certificate chain.
pub enum PemFailure {
    /// The bytes are not UTF-8.
    NotUtf8,
    /// This line of a certificate is not hexadecimal.
    NotHex(Seq<u8>),
    /// The last certificate has no end.
    MissingEnd,
    /// There is no certificate.
    NoData,
}

/// The state after one more line: a begin marker starts a certificate, an
/// end marker completes the one being read, and any other line adds its
/// bytes to the certificate being read, or is passed over where none is.
pub open spec fn pem_line(state: PemState, line: Seq<u8>) -> Result<PemState, PemFailure> {
    if contains(line, begin_marker()) {
        Ok(PemState { read: true, ..state })
    } else if contains(line, end_marker()) {
        Ok(PemState { blocks: state.blocks.push(state.block), block: Seq::empty(), read: false })
    } else if state.read {
        match hex_decoded(line) {
            Some(data) => Ok(PemState { block: state.block + data, ..state }),
            None => Err(PemFailure::NotHex(line)),
        }
    } else {
        Ok(state)
    }
}

/// The state after all of `lines`, or what was wrong with the first line
/// that could not be read.
pub open spec fn pem_lines(lines: Seq<Seq<u8>>) -> Result<PemState, PemFailure>
    decreases lines.len(),
{
    if lines.len() == 0 {
        Ok(PemState { blocks: Seq::empty(), block: Seq::empty(), read: false })
    } else {
        match pem_lines(lines.drop_last()) {
            Ok(state) => pem_line(state, lines.last()),
            Err(e) => Err(e),
        }
    }
}

/// The certificates that `content` holds, each as its bytes, or what is
/// wrong with it.
pub open spec fn pem_blocks_of(content: Seq<u8>) -> Result<Seq<Seq<u8>>, PemFailure> {
    if !valid_utf8(content) {
        Err(PemFailure::NotUtf8)
    } else {
        match pem_lines(pieces(content, 0x0a)) {
            Err(e) => Err(e),
            Ok(state) => if state.read {
                Err(PemFailure::MissingEnd)
            } else if state.blocks.len() == 0 {
                Err(PemFailure::NoData)
            } else {
                Ok(state.blocks)
            },
        }
    }
}

/// The message that goes with a failure to read `content`.
pub open spec fn pem_message(content: Seq<u8>, failure: PemFailure) -> Seq<char> {
    match failure {
        PemFailure::NotUtf8 => utf8_error_text(content),
        PemFailure::NotHex(line) => hex_error_text(line),
        PemFailure::MissingEnd => "Missing end header"@,
        PemFailure::NoData => "Missing PEM data"@,
    }
}

/// The certificates in `blocks`, each taken by its view.
pub open spec fn blocks_view(blocks: Seq<Vec<u8>>) -> Seq<Seq<u8>> {
    blocks.map_values(|b: Vec<u8>| b@)
}

fn marker(begin: bool) -> (r: Vec<u8>)
    ensures
        r@ == (if begin {
            begin_marker()
        } else {
            end_marker()
        }),
{
    if begin {
        vec![
            0x2du8, 0x2d, 0x2d, 0x2d, 0x2d, 0x42, 0x45, 0x47, 0x49, 0x4e, 0x20, 0x43, 0x45, 0x52,
            0x54, 0x49, 0x46, 0x49, 0x43, 0x41, 0x54, 0x45,
        ]
    } else {
        vec![
            0x2du8, 0x2d, 0x2d, 0x2d, 0x2d, 0x45, 0x4e, 0x44, 0x20, 0x43, 0x45, 0x52, 0x54, 0x49,
            0x46, 0x49, 0x43, 0x41, 0x54, 0x45,
        ]
    }
}

fn occurs(line: &Vec<u8>, pattern: &Vec<u8>, at: usize) -> (r: bool)
    requires
        at + pattern@.len() <= line@.len(),
    ensures
        r == occurs_at(line@, pattern@, at as int),
{
    // the length of a vector fits the machine
    let ghost line_len = line.len();
    let mut j: usize = 0;
    while j < pattern.len()
        invariant
            j <= pattern@.len(),
            at + pattern@.len() <= line@.len() <= usize::MAX,
            forall|k: int| 0 <= k < j ==> line@[at + k] == #[trigger] pattern@[k],
        decreases pattern@.len() - j,
    {
        if line[at + j] != pattern[j] {
            return false;
        }
        j = j + 1;
    }
    true
}

fn line_contains(line: &Vec<u8>, pattern: &Vec<u8>) -> (r: bool)
    ensures
        r == contains(line@, pattern@),
{
    if pattern.len() > line.len() {
        return false;
    }
    let last = line.len() - pattern.len();
    let mut at: usize = 0;
    loop
        invariant
            last == line@.len() - pattern@.len(),
            at <= last,
            forall|k: int| 0 <= k < at ==> !occurs_at(line@, pattern@, k),
        decreases last - at,
    {
        if occurs(line, pattern, at) {
            return true;
        }
        if at == last {
            return false;
        }
        at = at + 1;
    }
}

/// What has been read of a certificate chain, as the reader holds it.
struct PemReader {
    blocks: Vec<Vec<u8>>,
    block: Vec<u8>,
    read: bool,
    bad_line: Option<String>,
}

impl PemReader {
    spec fn state(&self) -> PemState {
        PemState { blocks: blocks_view(self.blocks@), block: self.block@, read: self.read }
    }

    spec fn agrees(&self, outcome: Result<PemState, PemFailure>) -> bool {
        match outcome {
            Ok(state) => self.bad_line is None && self.state() == state,
            Err(PemFailure::NotHex(line)) => self.bad_line matches Some(m) && m@ == hex_error_text(
                line,
            ),
            Err(_) => false,
        }
    }

    fn line(&mut self, line: &Vec<u8>, begin: &Vec<u8>, end: &Vec<u8>, Ghost(before): Ghost<
        Result<PemState, PemFailure>,
    >)
        requires
            begin@ == begin_marker(),
            end@ == end_marker(),
            old(self).agrees(before),
        ensures
            final(self).agrees(
                match before {
                    Ok(state) => pem_line(state, line@),
                    Err(e) => Err(e),
                },
            ),
    {
        if self.bad_line.is_some() {
            return ;
        }
        if line_contains(line, begin) {
            self.read = true;
        } else if line_contains(line, end) {
            self.read = false;
            let mut block: Vec<u8> = Vec::new();
            append(&mut block, &self.block);
            self.blocks.push(block);
            self.block.clear();
            assert(blocks_view(self.blocks@) =~= blocks_view(old(self).blocks@).push(
                old(self).block@,
            ));
        } else if self.read {
            match hex_decode(line) {
                Ok(data) => {
                    append(&mut self.block, &data);
                },
                Err(m) => {
                    self.bad_line = Some(m);
                },
            }
        }
    }
}

/// Reads a certificate chain and returns the bytes of each certificate.
///
/// Fails with `PEMFormatError` where the content is not UTF-8, where a line
/// of a certificate is not hexadecimal, where the last certificate has no
/// end, and where there is no certificate at all; the message says which.
pub fn split_pem(pem_content: &[u8]) -> (r: Result<Vec<Vec<u8>>, ErrorKind>)
    ensures
        match pem_blocks_of(pem_content@) {
            Ok(blocks) => r matches Ok(v) && blocks_view(v@) == blocks,
            Err(failure) => r matches Err(e) && e@ == ErrorView::PEMFormatError(
                pem_message(pem_content@, failure),
            ),
        },
{
    match utf8_error(pem_content) {
        Some(m) => {
            return Err(ErrorKind::PEMFormatError(m));
        },
        None => {},
    }
    let begin = marker(true);
    let end = marker(false);
    let mut reader = PemReader {
        blocks: Vec::new(),
        block: Vec::new(),
        read: false,
        bad_line: None,
    };
    let mut line: Vec<u8> = Vec::new();
    let ghost mut done: Seq<Seq<u8>> = Seq::empty();
    assert(reader.state().blocks =~= Seq::<Seq<u8>>::empty());
    let mut i: usize = 0;
    while i < pem_content.len()
        invariant
            i <= pem_content@.len(),
            begin@ == begin_marker(),
            end@ == end_marker(),
            pieces(pem_content@.take(i as int), 0x0a) == done.push(line@),
            reader.agrees(pem_lines(done)),
        decreases pem_content@.len() - i,
    {
        proof {
            lemma_pieces_step(pem_content@, i as int, 0x0a, done, line@);
        }
        if pem_content[i] == 0x0a {
            let ghost before = done;
            reader.line(&line, &begin, &end, Ghost(pem_lines(done)));
            proof {
                done = before.push(line@);
                assert(done.drop_last() =~= before);
            }
            line = Vec::new();
        } else {
            line.push(pem_content[i]);
        }
        i = i + 1;
    }
    reader.line(&line, &begin, &end, Ghost(pem_lines(done)));
    proof {
        assert(pem_content@.take(i as int) =~= pem_content@);
        let all = done.push(line@);
        assert(all.drop_last() =~= done);
    }
    match reader.bad_line {
        Some(m) => {
            return Err(ErrorKind::PEMFormatError(m));
        },
        None => {},
    }
    if reader.read {
        return Err(ErrorKind::PEMFormatError("Missing end header".to_owned()));
    }
    if reader.blocks.len() == 0 {
        return Err(ErrorKind::PEMFormatError("Missing PEM data".to_owned()));
    }
    Ok(reader.blocks)
}

} // verus!
