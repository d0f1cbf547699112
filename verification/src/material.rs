//! Certificate material kinds and where the certificate supplier publishes
//! each of them.

use vstd::prelude::*;

verus! {

/// The four kinds of PEM-encoded certificate material the supplier serves.
#[derive(Clone, Copy, PartialEq, Eq, Structural, Debug)]
pub enum CertFile {
    Privkey,
    Fullchain,
    Cert,
    Chain,
}

/// The file stem under which a material kind is published at the supplier.
pub open spec fn spec_file_stem(file: CertFile) -> Seq<char> {
    match file {
        CertFile::Privkey => "privkey"@,
        CertFile::Fullchain => "fullchain"@,
        CertFile::Cert => "cert"@,
        CertFile::Chain => "chain"@,
    }
}

/// The full URL from which a material kind is fetched.
pub open spec fn spec_material_url(file: CertFile) -> Seq<char> {
    match file {
        CertFile::Privkey => "https://cert.for.hither.host/privkey.pem"@,
        CertFile::Fullchain => "https://cert.for.hither.host/fullchain.pem"@,
        CertFile::Cert => "https://cert.for.hither.host/cert.pem"@,
        CertFile::Chain => "https://cert.for.hither.host/chain.pem"@,
    }
}

/// Each material URL is the supplier's origin, the kind's file stem, and the
/// PEM extension, in that order.
pub proof fn lemma_material_url_shape(file: CertFile)
    ensures
        spec_material_url(file) == "https://cert.for.hither.host/"@ + spec_file_stem(file)
            + ".pem"@,
{
    reveal_strlit("privkey");
    reveal_strlit("fullchain");
    reveal_strlit("cert");
    reveal_strlit("chain");
    reveal_strlit(".pem");
    reveal_strlit("https://cert.for.hither.host/");
    reveal_strlit("https://cert.for.hither.host/privkey.pem");
    reveal_strlit("https://cert.for.hither.host/fullchain.pem");
    reveal_strlit("https://cert.for.hither.host/cert.pem");
    reveal_strlit("https://cert.for.hither.host/chain.pem");
    match file {
        CertFile::Privkey => {
            assert(spec_material_url(file) =~= "https://cert.for.hither.host/"@
                + spec_file_stem(file) + ".pem"@);
        },
        CertFile::Fullchain => {
            assert(spec_material_url(file) =~= "https://cert.for.hither.host/"@
                + spec_file_stem(file) + ".pem"@);
        },
        CertFile::Cert => {
            assert(spec_material_url(file) =~= "https://cert.for.hither.host/"@
                + spec_file_stem(file) + ".pem"@);
        },
        CertFile::Chain => {
            assert(spec_material_url(file) =~= "https://cert.for.hither.host/"@
                + spec_file_stem(file) + ".pem"@);
        },
    }
}

/// The file stem under which a material kind is published.
pub fn file_stem(file: CertFile) -> (r: &'static str)
    ensures
        r@ == spec_file_stem(file),
{
    match file {
        CertFile::Privkey => "privkey",
        CertFile::Fullchain => "fullchain",
        CertFile::Cert => "cert",
        CertFile::Chain => "chain",
    }
}

/// The URL from which the given material kind is fetched.
pub fn material_url(file: CertFile) -> (r: &'static str)
    ensures
        r@ == spec_material_url(file),
{
    match file {
        CertFile::Privkey => "https://cert.for.hither.host/privkey.pem",
        CertFile::Fullchain => "https://cert.for.hither.host/fullchain.pem",
        CertFile::Cert => "https://cert.for.hither.host/cert.pem",
        CertFile::Chain => "https://cert.for.hither.host/chain.pem",
    }
}

/// What fetch mode emits for a fetched payload: exactly the supplier's bytes,
/// with no transformation.
pub fn fetch_output(body: Vec<u8>) -> (r: Vec<u8>)
    ensures
        r@ == body@,
{
    body
}

} // verus!
