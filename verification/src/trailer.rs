//! The self-payload trailer protocol.
//!
//! A packaged launcher carries, after its own compiled code, a byte-exact
//! record: the companion executable, the compressed resource archive, a
//! separator null, the argument string with its terminating null, and the two
//! payload sizes as null-terminated decimal fields.  The parser recovers the
//! record by scanning strictly backward from the end of the file: each
//! backward scan consumes the byte at the current tail position, collects
//! bytes until it sights the previous null, and leaves that null unconsumed;
//! after the third field the cursor is adjusted back by exactly one byte to
//! step over that separator before the two payload regions are read.  This
//! layout and scan order are a binding contract with the build-time packaging
//! tool and must be preserved exactly.

use vstd::prelude::*;

use crate::decimal::{
    dec_bytes, is_digit, lemma_dec_bytes_digits, lemma_dec_val_of_dec_bytes, parse_size,
    parse_size_spec,
};
use crate::decimal::dec_bytes_exec;

verus! {

/// Where the backward scan that starts at cursor `c` stops: the position of
/// the nearest null strictly below `c - 1`, or -1 when there is none.  The
/// byte at `c - 1` itself is always consumed by the scan, so it is never a
/// stop position.
pub open spec fn scan_stop(data: Seq<u8>, c: int) -> int
    decreases c,
{
    if c < 2 {
        -1
    } else if data[c - 2] == 0 {
        c - 2
    } else {
        scan_stop(data, c - 1)
    }
}

/// The cursor after a backward field scan from `c`: just above the null the
/// scan stopped at, or the start of the data when no null remains.
pub open spec fn field_start(data: Seq<u8>, c: int) -> int {
    if scan_stop(data, c) >= 0 {
        scan_stop(data, c) + 1
    } else {
        0
    }
}

/// The bytes a backward field scan from `c` collects, in file order.
pub open spec fn field_chunk(data: Seq<u8>, c: int) -> Seq<u8> {
    data.subrange(field_start(data, c), c)
}

/// A collected field without its trailing null delimiter, when one is there.
pub open spec fn strip_null(s: Seq<u8>) -> Seq<u8> {
    if s.len() > 0 && s.last() == 0 {
        s.drop_last()
    } else {
        s
    }
}

/// The scan stops exactly at a null that has no other null between itself
/// and the cursor.
pub proof fn lemma_scan_stop_at(data: Seq<u8>, c: int, k: int)
    requires
        0 <= k <= c - 2,
        data[k] == 0,
        forall|i: int| k < i <= c - 2 ==> data[i] != 0,
    ensures
        scan_stop(data, c) == k,
    decreases c,
{
    if c - 2 > k {
        lemma_scan_stop_at(data, c - 1, k);
    }
}

/// Bounds and meaning of the stop position.
pub proof fn lemma_scan_stop_props(data: Seq<u8>, c: int)
    requires
        0 <= c <= data.len(),
    ensures
        -1 <= scan_stop(data, c),
        scan_stop(data, c) >= 0 ==> scan_stop(data, c) <= c - 2 && data[scan_stop(data, c)] == 0,
        forall|i: int| scan_stop(data, c) < i <= c - 2 ==> data[i] != 0,
    decreases c,
{
    if c >= 2 && data[c - 2] != 0 {
        lemma_scan_stop_props(data, c - 1);
    }
}

/// Finds the cursor position after one backward field scan from `c`.
fn find_field_start(data: &Vec<u8>, c: usize) -> (s: usize)
    requires
        c <= data@.len(),
    ensures
        s == field_start(data@, c as int),
        s <= c,
{
    proof {
        lemma_scan_stop_props(data@, c as int);
    }
    if c < 2 {
        return 0;
    }
    let mut j: usize = c - 2;
    loop
        invariant
            2 <= c <= data@.len(),
            j <= c - 2,
            scan_stop(data@, c as int) == scan_stop(data@, (j + 2) as int),
        decreases j,
    {
        if data[j] == 0 {
            return j + 1;
        }
        if j == 0 {
            assert(scan_stop(data@, 2) == scan_stop(data@, 1));
            assert(scan_stop(data@, 1) == -1);
            return 0;
        }
        j -= 1;
    }
}

/// Copies `data[a..b]` into a fresh buffer.
fn copy_range(data: &Vec<u8>, a: usize, b: usize) -> (r: Vec<u8>)
    requires
        a <= b <= data@.len(),
    ensures
        r@ == data@.subrange(a as int, b as int),
{
    let mut r: Vec<u8> = Vec::new();
    assert(r@ =~= data@.subrange(a as int, a as int));
    let mut i: usize = a;
    while i < b
        invariant
            a <= i <= b <= data@.len(),
            r@ == data@.subrange(a as int, i as int),
        decreases b - i,
    {
        r.push(data[i]);
        assert(r@ =~= data@.subrange(a as int, i as int + 1));
        i += 1;
    }
    r
}

/// Performs one backward field scan from `c`: returns the collected field
/// with its trailing null already stripped, and the new cursor.
fn field_back(data: &Vec<u8>, c: usize) -> (r: (Vec<u8>, usize))
    requires
        c <= data@.len(),
    ensures
        r.0@ == strip_null(field_chunk(data@, c as int)),
        r.1 == field_start(data@, c as int),
        r.1 <= c,
{
    let start = find_field_start(data, c);
    let end: usize = if c > start && data[c - 1] == 0 {
        c - 1
    } else {
        c
    };
    proof {
        let chunk = field_chunk(data@, c as int);
        if c > start {
            assert(chunk.len() > 0);
            assert(chunk.last() == data@[c - 1]);
            if data@[c - 1] == 0 {
                assert(strip_null(chunk) =~= data@.subrange(start as int, c - 1));
            } else {
                assert(strip_null(chunk) =~= data@.subrange(start as int, c as int));
            }
        } else {
            assert(chunk.len() == 0);
            assert(strip_null(chunk) =~= data@.subrange(start as int, c as int));
        }
    }
    (copy_range(data, start, end), start)
}

/// The three logical payloads of a parsed trailer, with the sizes its two
/// decimal fields declared.
pub struct Trailer {
    pub exe_size: u64,
    pub zip_size: u64,
    pub args: Vec<u8>,
    pub archive_payload: Vec<u8>,
    pub exe_payload: Vec<u8>,
}

/// The mathematical content of a trailer.
#[verifier::ext_equal]
pub struct TrailerView {
    pub exe_size: u64,
    pub zip_size: u64,
    pub args: Seq<u8>,
    pub archive_payload: Seq<u8>,
    pub exe_payload: Seq<u8>,
}

impl View for Trailer {
    type V = TrailerView;

    open spec fn view(&self) -> TrailerView {
        TrailerView {
            exe_size: self.exe_size,
            zip_size: self.zip_size,
            args: self.args@,
            archive_payload: self.archive_payload@,
            exe_payload: self.exe_payload@,
        }
    }
}

impl Trailer {
    /// The declared sizes agree with the payloads actually carried.
    pub open spec fn wf(self) -> bool {
        self.exe_payload@.len() == self.exe_size as int && self.archive_payload@.len()
            == self.zip_size as int
    }
}

/// Why a trailer was rejected as corrupt.
#[derive(Clone, Copy, Debug, PartialEq, Eq, Structural)]
pub enum TrailerError {
    /// A size field is not a nonempty decimal string whose value fits 64 bits.
    BadSizeField,
    /// The declared sizes exceed what actually precedes the fields.
    PayloadOutOfBounds,
}

/// A whole packaged file: anything at all (the launcher's own code), then the
/// trailer record.  The trailer is, in file order: the companion executable,
/// the archive, a null, the argument string, a null, the archive size in
/// decimal, a null, the executable size in decimal, a final null.
pub open spec fn encode_trailer_spec(exe: Seq<u8>, archive: Seq<u8>, args: Seq<u8>) -> Seq<u8> {
    exe + archive + seq![0u8] + args + seq![0u8] + dec_bytes(archive.len()) + seq![0u8]
        + dec_bytes(exe.len()) + seq![0u8]
}

/// What parsing a file yields: three backward field scans give the
/// executable size, the archive size and the argument string; the cursor then
/// steps back one byte over the separator the last scan sighted, and the two
/// payload regions are read backward from there.
pub open spec fn parse_trailer_spec(data: Seq<u8>) -> Result<TrailerView, TrailerError> {
    let c0 = data.len() as int;
    let f1 = strip_null(field_chunk(data, c0));
    let c1 = field_start(data, c0);
    let f2 = strip_null(field_chunk(data, c1));
    let c2 = field_start(data, c1);
    if parse_size_spec(f1) is None || parse_size_spec(f2) is None {
        Err(TrailerError::BadSizeField)
    } else {
        let exe_size = parse_size_spec(f1)->Some_0;
        let zip_size = parse_size_spec(f2)->Some_0;
        let args = strip_null(field_chunk(data, c2));
        let c3 = field_start(data, c2);
        let pe = if c3 > 0 {
            c3 - 1
        } else {
            0
        };
        if exe_size + zip_size > pe {
            Err(TrailerError::PayloadOutOfBounds)
        } else {
            Ok(
                TrailerView {
                    exe_size,
                    zip_size,
                    args,
                    archive_payload: data.subrange(pe - zip_size, pe),
                    exe_payload: data.subrange(pe - zip_size - exe_size, pe - zip_size),
                },
            )
        }
    }
}

/// Appends a trailer for the given payloads and argument string to a fresh
/// buffer, exactly as the build-time packaging tool lays it out.
pub fn encode_trailer(exe_payload: &Vec<u8>, archive_payload: &Vec<u8>, args: &Vec<u8>) -> (r: Vec<
    u8,
>)
    ensures
        r@ == encode_trailer_spec(exe_payload@, archive_payload@, args@),
{
    let mut r: Vec<u8> = Vec::new();
    r.extend_from_slice(exe_payload.as_slice());
    r.extend_from_slice(archive_payload.as_slice());
    r.push(0);
    r.extend_from_slice(args.as_slice());
    r.push(0);
    let zd = dec_bytes_exec(archive_payload.len() as u128);
    r.extend_from_slice(zd.as_slice());
    r.push(0);
    let ed = dec_bytes_exec(exe_payload.len() as u128);
    r.extend_from_slice(ed.as_slice());
    r.push(0);
    assert(r@ =~= encode_trailer_spec(exe_payload@, archive_payload@, args@));
    r
}

/// Parses the trailer at the tail of `data`, which holds the packaged file in
/// whole.  Succeeds or fails exactly as the protocol prescribes.
pub fn parse_trailer(data: &Vec<u8>) -> (r: Result<Trailer, TrailerError>)
    ensures
        r matches Ok(t) ==> parse_trailer_spec(data@) == Ok::<TrailerView, TrailerError>(t@)
            && t.wf(),
        r matches Err(e) ==> parse_trailer_spec(data@) == Err::<TrailerView, TrailerError>(e),
{
    let n = data.len();
    let (f1, c1) = field_back(data, n);
    let s1 = parse_size(&f1);
    let (f2, c2) = field_back(data, c1);
    let s2 = parse_size(&f2);
    let (exe_size, zip_size): (u64, u64) = match (s1, s2) {
        (Some(e), Some(z)) => (e, z),
        _ => {
            return Err(TrailerError::BadSizeField);
        },
    };
    let (args, c3) = field_back(data, c2);
    let pe: usize = if c3 > 0 {
        c3 - 1
    } else {
        0
    };
    if (exe_size as u128) + (zip_size as u128) > (pe as u128) {
        return Err(TrailerError::PayloadOutOfBounds);
    }
    let zs = zip_size as usize;
    let es = exe_size as usize;
    let archive_payload = copy_range(data, pe - zs, pe);
    let exe_payload = copy_range(data, pe - zs - es, pe - zs);
    let t = Trailer { exe_size, zip_size, args, archive_payload, exe_payload };
    proof {
        let v = parse_trailer_spec(data@)->Ok_0;
        assert(t@ =~= v);
    }
    Ok(t)
}

/// Round trip: a trailer encoded for any payloads and any null-free argument
/// string, appended to any launcher code, parses back to exactly the same
/// sizes, argument string and payload regions.
pub proof fn lemma_trailer_round_trip(prefix: Seq<u8>, exe: Seq<u8>, archive: Seq<u8>, args: Seq<
    u8,
>)
    requires
        forall|i: int| 0 <= i < args.len() ==> args[i] != 0,
        exe.len() <= u64::MAX,
        archive.len() <= u64::MAX,
    ensures
        parse_trailer_spec(prefix + encode_trailer_spec(exe, archive, args)) == Ok::<
            TrailerView,
            TrailerError,
        >(
            TrailerView {
                exe_size: exe.len() as u64,
                zip_size: archive.len() as u64,
                args: args,
                archive_payload: archive,
                exe_payload: exe,
            },
        ),
{
    let zd = dec_bytes(archive.len());
    let ed = dec_bytes(exe.len());
    lemma_dec_bytes_digits(archive.len());
    lemma_dec_bytes_digits(exe.len());
    lemma_dec_val_of_dec_bytes(archive.len());
    lemma_dec_val_of_dec_bytes(exe.len());
    let data = prefix + encode_trailer_spec(exe, archive, args);
    let p = prefix.len() as int;
    let e = exe.len() as int;
    let z = archive.len() as int;
    let a = args.len() as int;
    let zl = zd.len() as int;
    let el = ed.len() as int;
    let s0 = p + e + z;
    let n1 = s0 + 1 + a;
    let n2 = n1 + 1 + zl;
    let n3 = n2 + 1 + el;
    assert(data.len() == n3 + 1);
    assert forall|i: int| 0 <= i < p implies data[i] == prefix[i] by {}
    assert forall|i: int| 0 <= i < e implies data[p + i] == exe[i] by {}
    assert forall|i: int| 0 <= i < z implies data[p + e + i] == archive[i] by {}
    assert(data[s0] == 0);
    assert forall|i: int| 0 <= i < a implies data[s0 + 1 + i] == args[i] by {}
    assert(data[n1] == 0);
    assert forall|i: int| 0 <= i < zl implies data[n1 + 1 + i] == zd[i] by {}
    assert(data[n2] == 0);
    assert forall|i: int| 0 <= i < el implies data[n2 + 1 + i] == ed[i] by {}
    assert(data[n3] == 0);
    // first scan: stops at the null before the executable-size field
    assert forall|i: int| n2 < i <= n3 - 1 implies data[i] != 0 by {
        assert(is_digit(ed[i - n2 - 1]));
    }
    lemma_scan_stop_at(data, n3 + 1, n2);
    let c1 = field_start(data, n3 + 1);
    assert(c1 == n2 + 1);
    let f1 = strip_null(field_chunk(data, n3 + 1));
    assert(field_chunk(data, n3 + 1) =~= ed + seq![0u8]);
    assert(f1 =~= ed);
    assert(parse_size_spec(f1) == Some(exe.len() as u64));
    // second scan: stops at the null before the archive-size field
    assert forall|i: int| n1 < i <= n2 - 1 implies data[i] != 0 by {
        assert(is_digit(zd[i - n1 - 1]));
    }
    lemma_scan_stop_at(data, n2 + 1, n1);
    let c2 = field_start(data, c1);
    assert(c2 == n1 + 1);
    let f2 = strip_null(field_chunk(data, c1));
    assert(field_chunk(data, c1) =~= zd + seq![0u8]);
    assert(f2 =~= zd);
    assert(parse_size_spec(f2) == Some(archive.len() as u64));
    // third scan: stops at the separator null before the argument string
    assert forall|i: int| s0 < i <= n1 - 1 implies data[i] != 0 by {
        assert(data[i] == args[i - s0 - 1]);
    }
    lemma_scan_stop_at(data, n1 + 1, s0);
    let c3 = field_start(data, c2);
    assert(c3 == s0 + 1);
    assert(field_chunk(data, c2) =~= args + seq![0u8]);
    assert(strip_null(field_chunk(data, c2)) =~= args);
    // the cursor steps back over the separator; the payloads precede it
    let pe = s0;
    assert(e + z <= pe);
    assert(data.subrange(pe - z, pe) =~= archive);
    assert(data.subrange(pe - z - e, pe - z) =~= exe);
    let v = parse_trailer_spec(data)->Ok_0;
    assert(v =~= TrailerView {
        exe_size: exe.len() as u64,
        zip_size: archive.len() as u64,
        args: args,
        archive_payload: archive,
        exe_payload: exe,
    });
}

} // verus!
