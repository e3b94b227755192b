use vstd::prelude::*;

verus! {

/// The label of a PEM block that holds an encrypted PKCS#8 private key.
pub open spec fn encrypted_key_label() -> Seq<char> {
    "ENCRYPTED PRIVATE KEY"@
}

/// The line that opens a PEM block with the given label, with its line feed.
pub open spec fn pem_begin(label: Seq<char>) -> Seq<char> {
    "-----BEGIN "@ + label + "-----\n"@
}

/// The line that closes a PEM block with the given label, with its line feed.
pub open spec fn pem_end(label: Seq<char>) -> Seq<char> {
    "-----END "@ + label + "-----\n"@
}

/// `s` opens with the begin line of `label` and closes with its end line.
pub open spec fn pem_framed(s: Seq<char>, label: Seq<char>) -> bool {
    let b = pem_begin(label);
    let e = pem_end(label);
    &&& b.len() + e.len() <= s.len()
    &&& s.take(b.len() as int) == b
    &&& s.skip(s.len() - e.len()) == e
}

/// `s` holds no carriage return: its lines end with a bare line feed.
pub open spec fn lf_only(s: Seq<char>) -> bool {
    forall|i: int| 0 <= i < s.len() ==> s[i] != '\r'
}

} // verus!
