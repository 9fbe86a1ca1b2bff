//! The bounded-prefix transform: a byte-count or line-count window over one
//! source, and the per-source headers shown when several sources run.

use vstd::prelude::*;

verus! {

/// The first `n` bytes of `bytes`, or all of them when the source is
/// shorter than the bound.
pub open spec fn spec_byte_prefix(bytes: Seq<u8>, n: nat) -> Seq<u8> {
    if bytes.len() <= n {
        bytes
    } else {
        bytes.take(n as int)
    }
}

/// The bytes of the byte-bounded window: at most `n` of them, taken from
/// the front of the source.
pub fn byte_prefix(bytes: &Vec<u8>, n: u64) -> (r: Vec<u8>)
    ensures
        r@ == spec_byte_prefix(bytes@, n as nat),
        r@.len() == vstd::math::min(bytes@.len() as int, n as int),
{
    let m: usize = if n >= bytes.len() as u64 {
        bytes.len()
    } else {
        n as usize
    };
    let mut r: Vec<u8> = Vec::new();
    let mut i: usize = 0;
    while i < m
        invariant
            i <= m,
            m <= bytes@.len(),
            m == vstd::math::min(bytes@.len() as int, n as int),
            r@ == bytes@.take(i as int),
        decreases m - i,
    {
        r.push(bytes[i]);
        proof {
            assert(r@ =~= bytes@.take(i + 1));
        }
        i += 1;
    }
    proof {
        assert(r@ =~= spec_byte_prefix(bytes@, n as nat));
    }
    r
}

/// The first `n` lines of `lines`, or all of them when the source is
/// shorter than the bound. Lines carry whatever terminators they were read
/// with; none is added or removed.
pub open spec fn spec_line_prefix(lines: Seq<Seq<char>>, n: nat) -> Seq<Seq<char>> {
    if lines.len() <= n {
        lines
    } else {
        lines.take(n as int)
    }
}

/// The lines of the line-bounded window: at most `n` of them, taken from
/// the front of the source, each exactly as read.
pub fn line_prefix(lines: &Vec<String>, n: u64) -> (r: Vec<String>)
    ensures
        r.deep_view() == spec_line_prefix(lines.deep_view(), n as nat),
        r@.len() == vstd::math::min(lines@.len() as int, n as int),
{
    let m: usize = if n >= lines.len() as u64 {
        lines.len()
    } else {
        n as usize
    };
    let mut r: Vec<String> = Vec::new();
    let mut i: usize = 0;
    while i < m
        invariant
            i <= m,
            m <= lines@.len(),
            m == vstd::math::min(lines@.len() as int, n as int),
            r@.len() == i,
            forall|j: int| 0 <= j < i ==> r.deep_view()[j] == lines.deep_view()[j],
        decreases m - i,
    {
        r.push(lines[i].clone());
        i += 1;
    }
    proof {
        assert(r.deep_view() =~= spec_line_prefix(lines.deep_view(), n as nat));
    }
    r
}

/// What permissive UTF-8 decoding makes of a byte sequence: well-formed
/// sequences decode as themselves, ill-formed ones are replaced. The result
/// depends on the bytes alone.
pub uninterp spec fn lossy_decoded(bytes: Seq<u8>) -> Seq<char>;

/// Relies on String::from_utf8_lossy: decodes the bytes as UTF-8, replacing
/// ill-formed sequences with the replacement character, from the byte
/// values alone; no bytes give no characters.
#[verifier::external_body]
fn decode_lossy(bytes: &Vec<u8>) -> (r: String)
    ensures
        r@ == lossy_decoded(bytes@),
        bytes@.len() == 0 ==> r@.len() == 0,
{
    String::from_utf8_lossy(bytes).into_owned()
}

/// The text the byte-bounded window emits: at most `n` bytes from the front
/// of the source, decoded permissively.
pub fn byte_prefix_text(bytes: &Vec<u8>, n: u64) -> (r: String)
    ensures
        r@ == lossy_decoded(spec_byte_prefix(bytes@, n as nat)),
{
    let p = byte_prefix(bytes, n);
    decode_lossy(&p)
}

/// The header announcing one source: a blank-line separator before every
/// header but the first, then the token between arrow markers.
pub open spec fn spec_header(token: Seq<char>, first: bool) -> Seq<char> {
    (if first {
        Seq::<char>::empty()
    } else {
        seq!['\n']
    }) + "==> "@ + token + " <=="@
}

/// The header shown before one source's output, or nothing: a header
/// appears exactly when more than one source is processed.
pub open spec fn spec_source_header(token: Seq<char>, idx: nat, n_sources: nat) -> Option<
    Seq<char>,
> {
    if n_sources > 1 {
        Some(spec_header(token, idx == 0))
    } else {
        None
    }
}

/// Builds the header for source `idx` of `n_sources`, where `idx` counts
/// from zero. With a single source there is none.
pub fn source_header(token: &String, idx: usize, n_sources: usize) -> (r: Option<String>)
    ensures
        r matches Some(h) ==> spec_source_header(token@, idx as nat, n_sources as nat)
            == Some(h@),
        r is Some <==> n_sources > 1,
{
    if n_sources > 1 {
        let mut h = String::new();
        if idx > 0 {
            proof {
                reveal_strlit("\n");
                assert("\n"@ =~= seq!['\n']);
            }
            h.append("\n");
        }
        h.append("==> ");
        h.append(token.as_str());
        h.append(" <==");
        proof {
            assert(h@ =~= spec_header(token@, idx == 0));
        }
        Some(h)
    } else {
        None
    }
}

/// Law: with exactly two sources the run shows exactly two headers and one
/// blank-line separator between them. The first header begins directly
/// with its arrow marker; the second begins with the separating newline,
/// after which it reads like a first header for its own token.
pub proof fn lemma_two_source_headers(t0: Seq<char>, t1: Seq<char>)
    ensures
        spec_source_header(t0, 0, 2) == Some(spec_header(t0, true)),
        spec_source_header(t1, 1, 2) == Some(spec_header(t1, false)),
        spec_header(t0, true).len() > 0,
        spec_header(t0, true)[0] == '=',
        spec_header(t1, false).len() > 0,
        spec_header(t1, false)[0] == '\n',
        spec_header(t1, false).drop_first() == spec_header(t1, true),
{
    reveal_strlit("==> ");
    assert(spec_header(t0, true)[0] == '=');
    assert(spec_header(t1, false)[0] == '\n');
    assert(spec_header(t1, false).drop_first() =~= spec_header(t1, true));
}

/// Law: with a single source no header at all is shown.
pub proof fn lemma_single_source_no_header(t: Seq<char>)
    ensures
        spec_source_header(t, 0, 1) is None,
{
}

} // verus!
