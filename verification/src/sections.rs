use vstd::prelude::*;

verus! {

/// Unsigned LEB128: seven low-order bits per byte, least significant group
/// first, the high bit marking a continuation.
pub open spec fn leb128(n: nat) -> Seq<u8>
    decreases n,
{
    if n < 128 {
        seq![n as u8]
    } else {
        seq![((n % 128) + 128) as u8] + leb128(n / 128)
    }
}

/// A binary section: one id byte, the payload's length, then the payload.
pub open spec fn section_bytes(id: u8, payload: Seq<u8>) -> Seq<u8> {
    seq![id] + leb128(payload.len()) + payload
}

/// A length-prefixed name.
pub open spec fn name_bytes(name: Seq<u8>) -> Seq<u8> {
    leb128(name.len()) + name
}

/// A custom section (id 0) holding a name and opaque data.
pub open spec fn custom_section(name: Seq<u8>, data: Seq<u8>) -> Seq<u8> {
    section_bytes(0, name_bytes(name) + data)
}

/// The name of the auxiliary custom section that carries a module's
/// interface-type metadata ("component-type" in ASCII).
pub open spec fn metadata_section_name() -> Seq<u8> {
    seq![
        0x63u8, 0x6f, 0x6d, 0x70, 0x6f, 0x6e, 0x65, 0x6e, 0x74, 0x2d, 0x74, 0x79, 0x70, 0x65,
    ]
}

/// Build the metadata section name as bytes.
pub fn metadata_section_name_bytes() -> (v: Vec<u8>)
    ensures
        v@ == metadata_section_name(),
{
    let mut v: Vec<u8> = Vec::new();
    v.push(0x63);
    v.push(0x6f);
    v.push(0x6d);
    v.push(0x70);
    v.push(0x6f);
    v.push(0x6e);
    v.push(0x65);
    v.push(0x6e);
    v.push(0x74);
    v.push(0x2d);
    v.push(0x74);
    v.push(0x79);
    v.push(0x70);
    v.push(0x65);
    proof {
        assert(v@ =~= metadata_section_name());
    }
    v
}

/// Encode `n` in unsigned LEB128.
pub fn leb128_bytes(n: usize) -> (out: Vec<u8>)
    ensures
        out@ == leb128(n as nat),
{
    let mut out: Vec<u8> = Vec::new();
    let mut m: usize = n;
    while m >= 128
        invariant
            leb128(n as nat) == out@ + leb128(m as nat),
        decreases m,
    {
        let b: u8 = ((m % 128) + 128) as u8;
        proof {
            assert(leb128(m as nat) == seq![b] + leb128((m as nat) / 128));
        }
        out.push(b);
        m = m / 128;
    }
    proof {
        assert(leb128(m as nat) == seq![m as u8]);
    }
    out.push(m as u8);
    proof {
        assert(out@ =~= leb128(n as nat));
    }
    out
}

/// Append every byte of `src` to `dst`.
pub fn push_all(dst: &mut Vec<u8>, src: &Vec<u8>)
    ensures
        final(dst)@ == old(dst)@ + src@,
{
    let ghost dst0: Seq<u8> = dst@;
    let mut i: usize = 0;
    while i < src.len()
        invariant
            i <= src@.len(),
            dst@ == dst0 + src@.take(i as int),
        decreases src@.len() - i,
    {
        dst.push(src[i]);
        proof {
            assert(src@.take(i + 1 as int) =~= src@.take(i as int) + seq![src@[i as int]]);
        }
        i = i + 1;
    }
    proof {
        assert(src@.take(src@.len() as int) =~= src@);
        assert(dst@ =~= old(dst)@ + src@);
    }
}

/// Frame `name` and `data` as one custom section.
pub fn frame_custom_section(name: &Vec<u8>, data: &Vec<u8>) -> (out: Vec<u8>)
    ensures
        out@ == custom_section(name@, data@),
{
    let mut payload = leb128_bytes(name.len());
    push_all(&mut payload, name);
    push_all(&mut payload, data);
    proof {
        assert(payload@ =~= name_bytes(name@) + data@);
    }
    let mut out: Vec<u8> = Vec::new();
    out.push(0u8);
    let size = leb128_bytes(payload.len());
    push_all(&mut out, &size);
    push_all(&mut out, &payload);
    proof {
        assert(out@ =~= custom_section(name@, data@));
    }
    out
}

/// Append a custom section holding `name` and `data` to `module`, leaving the
/// existing bytes untouched.
pub fn append_custom_section(module: &mut Vec<u8>, name: &Vec<u8>, data: &Vec<u8>)
    ensures
        final(module)@ == old(module)@ + custom_section(name@, data@),
{
    let sec = frame_custom_section(name, data);
    push_all(module, &sec);
}

/// Append the interface-type metadata blob to `module` as its auxiliary
/// custom section.
pub fn embed_metadata_section(module: &mut Vec<u8>, blob: &Vec<u8>)
    ensures
        final(module)@ == old(module)@ + custom_section(metadata_section_name(), blob@),
{
    let name = metadata_section_name_bytes();
    append_custom_section(module, &name, blob);
}

/// Compare two byte strings for exact equality.
pub fn bytes_equal(a: &Vec<u8>, b: &Vec<u8>) -> (r: bool)
    ensures
        r == (a@ == b@),
{
    if a.len() != b.len() {
        return false;
    }
    let mut i: usize = 0;
    while i < a.len()
        invariant
            i <= a@.len(),
            a@.len() == b@.len(),
            forall|j: int| 0 <= j < i ==> a@[j] == b@[j],
        decreases a@.len() - i,
    {
        if a[i] != b[i] {
            return false;
        }
        i = i + 1;
    }
    proof {
        assert(a@ =~= b@);
    }
    true
}

} // verus!
