//! Certificate text handling for the link: base64 and PEM framing of
//! DER certificates, PEM parsing, and the SHA-256 fingerprint that
//! pins a server.

use vstd::prelude::*;
use crate::text::push_char;

verus! {

// ---------------------------------------------------------------------
// Base64 (standard alphabet, `=` padding)
// ---------------------------------------------------------------------

/// The base64 digit for a six-bit value.
pub open spec fn b64_digit(v: int) -> char {
    if v < 26 {
        (65 + v) as char
    } else if v < 52 {
        (97 + v - 26) as char
    } else if v < 62 {
        (48 + v - 52) as char
    } else if v == 62 {
        '+'
    } else {
        '/'
    }
}

/// Base64 of `d`: every three bytes become four digits; a final one or
/// two bytes become two or three digits padded with `=` to four.
pub open spec fn b64_spec(d: Seq<u8>) -> Seq<char>
    decreases d.len(),
{
    if d.len() == 0 {
        Seq::empty()
    } else if d.len() == 1 {
        let b0 = d[0] as int;
        seq![b64_digit(b0 / 4), b64_digit((b0 % 4) * 16), '=', '=']
    } else if d.len() == 2 {
        let (b0, b1) = (d[0] as int, d[1] as int);
        seq![b64_digit(b0 / 4), b64_digit((b0 % 4) * 16 + b1 / 16), b64_digit((b1 % 16) * 4), '=']
    } else {
        b64_quad(d[0] as int, d[1] as int, d[2] as int) + b64_spec(d.subrange(3, d.len() as int))
    }
}

/// The four digits of three whole bytes.
pub open spec fn b64_quad(b0: int, b1: int, b2: int) -> Seq<char> {
    seq![
        b64_digit(b0 / 4),
        b64_digit((b0 % 4) * 16 + b1 / 16),
        b64_digit((b1 % 16) * 4 + b2 / 64),
        b64_digit(b2 % 64),
    ]
}

fn b64_digit_of(v: u8) -> (c: char)
    requires
        v < 64,
    ensures
        c == b64_digit(v as int),
{
    if v < 26 {
        (65 + v) as char
    } else if v < 52 {
        (97 + (v - 26)) as char
    } else if v < 62 {
        (48 + (v - 52)) as char
    } else if v == 62 {
        '+'
    } else {
        '/'
    }
}

/// Base64 of `data`, as characters.
pub fn base64_chars(data: &[u8]) -> (r: Vec<char>)
    ensures
        r@ == b64_spec(data@),
{
    let n = data.len();
    let mut out: Vec<char> = Vec::new();
    let mut i: usize = 0;
    proof {
        assert(data@.subrange(0, n as int) =~= data@);
        assert(out@ + b64_spec(data@) =~= b64_spec(data@));
    }
    while n - i >= 3
        invariant
            n == data@.len(),
            i <= n,
            out@ + b64_spec(data@.subrange(i as int, n as int)) == b64_spec(data@),
        decreases n - i,
    {
        let b0 = data[i];
        let b1 = data[i + 1];
        let b2 = data[i + 2];
        let ghost rest = data@.subrange(i as int, n as int);
        let ghost before = out@;
        proof {
            assert(rest.subrange(3, rest.len() as int) =~= data@.subrange(i + 3, n as int));
            assert(rest[0] == b0 && rest[1] == b1 && rest[2] == b2);
        }
        out.push(b64_digit_of(b0 / 4));
        out.push(b64_digit_of((b0 % 4) * 16 + b1 / 16));
        out.push(b64_digit_of((b1 % 16) * 4 + b2 / 64));
        out.push(b64_digit_of(b2 % 64));
        i = i + 3;
        proof {
            let four = b64_quad(b0 as int, b1 as int, b2 as int);
            assert(out@ =~= before + four);
            assert(b64_spec(rest) == four + b64_spec(data@.subrange(i as int, n as int)));
            assert(out@ + b64_spec(data@.subrange(i as int, n as int)) =~= before + b64_spec(rest));
        }
    }
    let ghost before = out@;
    let ghost rest = data@.subrange(i as int, n as int);
    if n - i == 1 {
        let b0 = data[i];
        assert(rest[0] == b0);
        out.push(b64_digit_of(b0 / 4));
        out.push(b64_digit_of((b0 % 4) * 16));
        out.push('=');
        out.push('=');
        assert(out@ =~= before + b64_spec(rest));
    } else if n - i == 2 {
        let b0 = data[i];
        let b1 = data[i + 1];
        assert(rest[0] == b0 && rest[1] == b1);
        out.push(b64_digit_of(b0 / 4));
        out.push(b64_digit_of((b0 % 4) * 16 + b1 / 16));
        out.push(b64_digit_of((b1 % 16) * 4));
        out.push('=');
        assert(out@ =~= before + b64_spec(rest));
    } else {
        assert(rest.len() == 0);
        assert(out@ =~= before + b64_spec(rest));
    }
    out
}

/// The text of a character vector.
pub fn chars_to_string(cs: &Vec<char>) -> (s: String)
    ensures
        s@ == cs@,
{
    let mut s = String::new();
    let mut i: usize = 0;
    while i < cs.len()
        invariant
            i <= cs@.len(),
            s@ == cs@.take(i as int),
        decreases cs@.len() - i,
    {
        push_char(&mut s, cs[i]);
        i = i + 1;
        assert(s@ =~= cs@.take(i as int));
    }
    assert(cs@.take(cs@.len() as int) =~= cs@);
    s
}

/// Base64 of `data`.
pub fn base64_encode(data: &[u8]) -> (r: String)
    ensures
        r@ == b64_spec(data@),
{
    let cs = base64_chars(data);
    chars_to_string(&cs)
}

// ---------------------------------------------------------------------
// PEM framing
// ---------------------------------------------------------------------

/// Characters per PEM body line.
pub const PEM_LINE: usize = 64;

/// The PEM body: `b` cut into lines of 64 characters, each ended by a
/// newline.
pub open spec fn pem_lines(b: Seq<char>) -> Seq<char>
    decreases b.len(),
{
    if b.len() == 0 {
        Seq::empty()
    } else if b.len() <= 64 {
        b.push('\n')
    } else {
        b.take(64).push('\n') + pem_lines(b.skip(64))
    }
}

/// The PEM text of a DER certificate.
pub open spec fn cert_pem_of(der: Seq<u8>) -> Seq<char> {
    "-----BEGIN CERTIFICATE-----\n"@ + pem_lines(b64_spec(der)) + "-----END CERTIFICATE-----\n"@
}

/// Appends `t`, one character at a time.
pub fn push_str(s: &mut String, t: &str)
    ensures
        final(s)@ == old(s)@ + t@,
{
    let cs = crate::text::str_chars(t);
    let mut i: usize = 0;
    while i < cs.len()
        invariant
            i <= cs@.len(),
            cs@ == t@,
            s@ == old(s)@ + t@.take(i as int),
        decreases cs@.len() - i,
    {
        push_char(s, cs[i]);
        assert(t@.take(i + 1) =~= t@.take(i as int).push(t@[i as int]));
        i = i + 1;
    }
    assert(t@.take(t@.len() as int) =~= t@);
}

/// Frame a DER certificate as PEM: base64 body in 64-character lines
/// between the certificate header and footer.
pub fn der_to_cert_pem(der: &[u8]) -> (pem: String)
    ensures
        pem@ == cert_pem_of(der@),
{
    let b64 = base64_chars(der);
    let n = b64.len();
    let mut pem = "-----BEGIN CERTIFICATE-----\n".to_owned();
    let ghost head = pem@;
    let mut i: usize = 0;
    proof {
        assert(b64@.skip(0) =~= b64@);
    }
    while i < n
        invariant
            n == b64@.len(),
            i <= n,
            head == "-----BEGIN CERTIFICATE-----\n"@,
            b64@ == b64_spec(der@),
            pem@ + pem_lines(b64@.skip(i as int)) == head + pem_lines(b64@),
        decreases n - i,
    {
        let end = if n - i > PEM_LINE { i + PEM_LINE } else { n };
        let ghost before = pem@;
        let ghost rest = b64@.skip(i as int);
        let mut j: usize = i;
        while j < end
            invariant
                i <= j <= end <= n,
                n == b64@.len(),
                pem@ == before + b64@.subrange(i as int, j as int),
            decreases end - j,
        {
            push_char(&mut pem, b64[j]);
            j = j + 1;
            assert(pem@ =~= before + b64@.subrange(i as int, j as int));
        }
        push_char(&mut pem, '\n');
        proof {
            if n - i > 64 {
                assert(rest.take(64) =~= b64@.subrange(i as int, end as int));
                assert(rest.skip(64) =~= b64@.skip(end as int));
                assert(pem_lines(rest) == rest.take(64).push('\n') + pem_lines(rest.skip(64)));
            } else {
                assert(rest =~= b64@.subrange(i as int, end as int));
                assert(b64@.skip(end as int).len() == 0);
                assert(pem_lines(b64@.skip(end as int)) =~= Seq::<char>::empty());
            }
            assert(pem@ + pem_lines(b64@.skip(end as int)) =~= before + pem_lines(rest));
        }
        i = end;
    }
    proof {
        assert(b64@.skip(n as int).len() == 0);
        assert(pem_lines(b64@.skip(n as int)) =~= Seq::<char>::empty());
        assert(pem@ =~= head + pem_lines(b64@));
    }
    push_str(&mut pem, "-----END CERTIFICATE-----\n");
    pem
}

// ---------------------------------------------------------------------
// PEM parsing
// ---------------------------------------------------------------------

/// The DER of every certificate section of `pem`, in order, or `None`
/// when reading a section fails.
pub uninterp spec fn pem_certificates(pem: Seq<char>) -> Option<Seq<Seq<u8>>>;

/// The DER of every PKCS#8 private-key section of `pem`, in order, or
/// `None` when reading a section fails.
pub uninterp spec fn pem_pkcs8_keys(pem: Seq<char>) -> Option<Seq<Seq<u8>>>;

/// The byte contents of a list of byte strings.
pub open spec fn blobs(v: Vec<Vec<u8>>) -> Seq<Seq<u8>> {
    v@.map_values(|b: Vec<u8>| b@)
}

/// Optional list of byte strings, by contents.
pub open spec fn opt_blobs(v: Option<Vec<Vec<u8>>>) -> Option<Seq<Seq<u8>>> {
    match v {
        Some(x) => Some(blobs(x)),
        None => None,
    }
}

/// Every certificate in `pem` (`rustls_pemfile::certs`, collected;
/// `None` when it yields an error).
#[verifier::external_body]
fn read_pem_certificates(pem: &str) -> (r: Option<Vec<Vec<u8>>>)
    ensures
        opt_blobs(r) == pem_certificates(pem@),
{
    let mut reader = std::io::BufReader::new(pem.as_bytes());
    match rustls_pemfile::certs(&mut reader).collect::<Result<Vec<_>, _>>() {
        Ok(v) => Some(v.into_iter().map(|c| c.to_vec()).collect()),
        Err(_) => None,
    }
}

/// Every PKCS#8 key in `pem` (`rustls_pemfile::pkcs8_private_keys`,
/// collected; `None` when it yields an error).
#[verifier::external_body]
fn read_pem_pkcs8_keys(pem: &str) -> (r: Option<Vec<Vec<u8>>>)
    ensures
        opt_blobs(r) == pem_pkcs8_keys(pem@),
{
    let mut reader = std::io::BufReader::new(pem.as_bytes());
    match rustls_pemfile::pkcs8_private_keys(&mut reader).collect::<Result<Vec<_>, _>>() {
        Ok(v) => Some(v.into_iter().map(|k| k.secret_pkcs8_der().to_vec()).collect()),
        Err(_) => None,
    }
}

/// `pem` reads cleanly and holds at least one section of the kind.
pub open spec fn has_first(sections: Option<Seq<Seq<u8>>>) -> bool {
    sections matches Some(v) && v.len() > 0
}

/// The first section, when there is one.
pub open spec fn first_of(sections: Option<Seq<Seq<u8>>>) -> Seq<u8> {
    sections->0[0]
}

/// The DER of the first certificate in a PEM text.
pub fn cert_pem_to_der(pem: &str) -> (der: Vec<u8>)
    requires
        has_first(pem_certificates(pem@)),
    ensures
        der@ == first_of(pem_certificates(pem@)),
{
    let mut v = read_pem_certificates(pem).unwrap();
    assert(blobs(v)[0] == v@[0]@);
    v.swap_remove(0)
}

/// The DER of the first certificate in a PEM text, or `None` when the
/// text does not read or holds none.
pub fn try_cert_pem_to_der(pem: &str) -> (der: Option<Vec<u8>>)
    ensures
        has_first(pem_certificates(pem@)) <==> der is Some,
        der matches Some(d) ==> d@ == first_of(pem_certificates(pem@)),
{
    match read_pem_certificates(pem) {
        Some(v) => {
            if v.len() > 0 {
                Some(cert_pem_to_der(pem))
            } else {
                None
            }
        },
        None => None,
    }
}

/// The DER of the first PKCS#8 private key in a PEM text.
pub fn key_pem_to_der(pem: &str) -> (der: Vec<u8>)
    requires
        has_first(pem_pkcs8_keys(pem@)),
    ensures
        der@ == first_of(pem_pkcs8_keys(pem@)),
{
    let mut v = read_pem_pkcs8_keys(pem).unwrap();
    assert(blobs(v)[0] == v@[0]@);
    v.swap_remove(0)
}

/// The DER of the first PKCS#8 private key in a PEM text, or `None`
/// when the text does not read or holds none.
pub fn try_key_pem_to_der(pem: &str) -> (der: Option<Vec<u8>>)
    ensures
        has_first(pem_pkcs8_keys(pem@)) <==> der is Some,
        der matches Some(d) ==> d@ == first_of(pem_pkcs8_keys(pem@)),
{
    match read_pem_pkcs8_keys(pem) {
        Some(v) => {
            if v.len() > 0 {
                Some(key_pem_to_der(pem))
            } else {
                None
            }
        },
        None => None,
    }
}

// ---------------------------------------------------------------------
// Fingerprints
// ---------------------------------------------------------------------

/// The SHA-256 digest of `data`.
pub uninterp spec fn sha256_of(data: Seq<u8>) -> Seq<u8>;

/// SHA-256 of `data` (`sha2::Sha256::digest`): a 32-byte digest.
#[verifier::external_body]
fn sha256(data: &[u8]) -> (r: Vec<u8>)
    ensures
        r@ == sha256_of(data@),
        r@.len() == 32,
{
    <sha2::Sha256 as sha2::Digest>::digest(data).to_vec()
}

/// The lowercase hex digit of a four-bit value.
pub open spec fn hex_digit(v: int) -> char {
    if v < 10 { (48 + v) as char } else { (97 + v - 10) as char }
}

/// Lowercase hex of `d`: two digits per byte, high nibble first.
pub open spec fn hex_lower(d: Seq<u8>) -> Seq<char>
    decreases d.len(),
{
    if d.len() == 0 {
        Seq::empty()
    } else {
        seq![hex_digit(d[0] as int / 16), hex_digit(d[0] as int % 16)] + hex_lower(d.subrange(1, d.len() as int))
    }
}

/// Hex of a concatenation is the concatenation of the hex.
pub proof fn lemma_hex_lower_append(a: Seq<u8>, b: Seq<u8>)
    ensures
        hex_lower(a + b) == hex_lower(a) + hex_lower(b),
    decreases a.len(),
{
    if a.len() == 0 {
        assert(a + b =~= b);
        assert(hex_lower(a) =~= Seq::<char>::empty());
        assert(hex_lower(a) + hex_lower(b) =~= hex_lower(b));
    } else {
        let t = a.subrange(1, a.len() as int);
        assert((a + b).subrange(1, (a + b).len() as int) =~= t + b);
        lemma_hex_lower_append(t, b);
        assert(hex_lower(a + b) =~= hex_lower(a) + hex_lower(b));
    }
}

/// The lowercase hex digit of `v`.
fn hex_digit_char(v: u8) -> (c: char)
    requires
        v < 16,
    ensures
        c == hex_digit(v as int),
{
    if v < 10 {
        (48u8 + v) as char
    } else {
        (97u8 + v - 10) as char
    }
}

/// Lowercase hex of `data`, two digits per byte, high nibble first.
fn hex_encode(data: &[u8]) -> (r: String)
    ensures
        r@ == hex_lower(data@),
{
    let mut out = String::new();
    let mut i: usize = 0;
    while i < data.len()
        invariant
            i <= data@.len(),
            out@ == hex_lower(data@.take(i as int)),
        decreases data@.len() - i,
    {
        let b = data[i];
        push_char(&mut out, hex_digit_char(b / 16));
        push_char(&mut out, hex_digit_char(b % 16));
        proof {
            let one = seq![b];
            assert(data@.take(i + 1) =~= data@.take(i as int) + one);
            lemma_hex_lower_append(data@.take(i as int), one);
            assert(one.subrange(1, 1) =~= Seq::<u8>::empty());
            assert(hex_lower(one.subrange(1, 1)) =~= Seq::<char>::empty());
            assert(hex_lower(one) =~= seq![hex_digit(b as int / 16), hex_digit(b as int % 16)]);
        }
        i = i + 1;
    }
    proof {
        assert(data@.take(data@.len() as int) =~= data@);
    }
    out
}

/// The fingerprint that pins a server: lowercase hex of the SHA-256 of
/// its DER certificate.
pub open spec fn fingerprint_of_der(der: Seq<u8>) -> Seq<char> {
    hex_lower(sha256_of(der))
}

pub fn cert_fingerprint(cert_der: &[u8]) -> (fp: String)
    ensures
        fp@ == fingerprint_of_der(cert_der@),
{
    let digest = sha256(cert_der);
    hex_encode(digest.as_slice())
}

/// The refusal a pinned session gives a certificate other than the
/// expected one.
pub open spec fn mismatch_message(expected: Seq<u8>, actual: Seq<u8>) -> Seq<char> {
    "Server cert mismatch: expected "@ + fingerprint_of_der(expected) + ", got "@ + fingerprint_of_der(actual)
}

/// Whether two byte strings are equal.
pub fn same_bytes(a: &[u8], b: &[u8]) -> (r: bool)
    ensures
        r == (a@ == b@),
{
    if a.len() != b.len() {
        return false;
    }
    let mut i: usize = 0;
    while i < a.len()
        invariant
            a@.len() == b@.len(),
            i <= a@.len(),
            forall|j: int| 0 <= j < i ==> a@[j] == b@[j],
        decreases a@.len() - i,
    {
        if a[i] != b[i] {
            return false;
        }
        i = i + 1;
    }
    assert(a@ =~= b@);
    true
}

/// A pinned session accepts exactly the expected certificate; any
/// other is refused with both fingerprints.
pub fn check_pinned(expected_der: &[u8], actual_der: &[u8]) -> (r: Result<(), String>)
    ensures
        r is Ok <==> actual_der@ == expected_der@,
        r matches Err(m) ==> m@ == mismatch_message(expected_der@, actual_der@),
{
    if same_bytes(actual_der, expected_der) {
        return Ok(());
    }
    let mut m = "Server cert mismatch: expected ".to_owned();
    let e = cert_fingerprint(expected_der);
    push_str(&mut m, e.as_str());
    push_str(&mut m, ", got ");
    let a = cert_fingerprint(actual_der);
    push_str(&mut m, a.as_str());
    Err(m)
}

} // verus!
