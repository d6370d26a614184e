//! Decision logic backing the registry's front end: the verdict rule of the
//! external credential-verification service, the screening of uploaded
//! files, and the profile shown on the documents page. The front end itself
//! (transport, template rendering) lives outside the library and hands these
//! functions plain values.

use vstd::prelude::*;
use crate::storage::StringMap;

verus! {

/// Whether a credential-verification response accepts the credential: the
/// service reports the verdict string `VALIDA` for a valid credential and
/// anything else for an invalid one.
pub fn credential_verdict_accepts(resultado: &String) -> (r: bool)
    ensures
        r == (resultado@ == "VALIDA"@),
{
    let expected = String::from_str("VALIDA");
    *resultado == expected
}

/// The verdict on an uploaded file.
#[derive(Debug, PartialEq, Eq, Structural)]
pub enum UploadVerdict {
    /// The payload holds no bytes.
    EmptyFile,
    /// The payload does not end in the `.pdf` suffix.
    NotPdf,
    /// The payload may be forwarded to validation and blob storage.
    Accepted,
}

/// Whether `file` ends in the four bytes of the ASCII suffix `.pdf`.
pub open spec fn has_pdf_suffix(file: Seq<u8>) -> bool {
    &&& file.len() >= 4
    &&& file[file.len() - 4] == 46u8
    &&& file[file.len() - 3] == 112u8
    &&& file[file.len() - 2] == 100u8
    &&& file[file.len() - 1] == 102u8
}

/// The verdict owed for `file`: an empty payload is reported before the
/// suffix is looked at, and only a payload with the `.pdf` suffix passes.
pub open spec fn upload_verdict(file: Seq<u8>) -> UploadVerdict {
    if file.len() == 0 {
        UploadVerdict::EmptyFile
    } else if !has_pdf_suffix(file) {
        UploadVerdict::NotPdf
    } else {
        UploadVerdict::Accepted
    }
}

/// Classifies an uploaded payload before it is forwarded to the external
/// validation and blob-storage collaborators.
pub fn classify_upload(file: &Vec<u8>) -> (g: UploadVerdict)
    ensures
        g == upload_verdict(file@),
{
    let n = file.len();
    if n == 0 {
        UploadVerdict::EmptyFile
    } else if n < 4 {
        UploadVerdict::NotPdf
    } else if file[n - 4] == 46u8 && file[n - 3] == 112u8 && file[n - 2] == 100u8 && file[n
        - 1] == 102u8 {
        UploadVerdict::Accepted
    } else {
        UploadVerdict::NotPdf
    }
}

/// The profile rendered on the documents page: a user's payment methods and
/// named documents.
pub struct UserProfile {
    pub name: String,
    pub tarjetas_debito: Vec<String>,
    pub tarjetas_credito: Vec<String>,
    pub wallets: Vec<String>,
    pub documents: StringMap<String>,
}

/// Builds the demonstration profile that the documents page renders: two
/// debit cards, two credit cards, two wallets and three named documents.
pub fn demo_user_profile() -> (u: UserProfile)
    ensures
        u.name@ == "Juan Pérez"@,
        u.tarjetas_debito@.len() == 2,
        u.tarjetas_debito@[0]@ == "VISA 1234"@,
        u.tarjetas_debito@[1]@ == "MASTERCARD 5678"@,
        u.tarjetas_credito@.len() == 2,
        u.tarjetas_credito@[0]@ == "AMEX 9012"@,
        u.tarjetas_credito@[1]@ == "DISCOVER 3456"@,
        u.wallets@.len() == 2,
        u.wallets@[0]@ == "Blockchain.com"@,
        u.wallets@[1]@ == "Metamask"@,
        u.documents.spec_get("INE"@) matches Some(d) && d@ == "Contenido de INE"@,
        u.documents.spec_get("Comprobante de domicilio"@) matches Some(d) && d@
            == "Contenido de comprobante de domicilio"@,
        u.documents.spec_get("Acta de nacimiento"@) matches Some(d) && d@
            == "Contenido de acta de nacimiento"@,
        forall|k: Seq<char>|
            k != "INE"@ && k != "Comprobante de domicilio"@ && k != "Acta de nacimiento"@
                ==> (#[trigger] u.documents.spec_get(k)) is None,
{
    let mut tarjetas_debito: Vec<String> = Vec::new();
    tarjetas_debito.push(String::from_str("VISA 1234"));
    tarjetas_debito.push(String::from_str("MASTERCARD 5678"));
    let mut tarjetas_credito: Vec<String> = Vec::new();
    tarjetas_credito.push(String::from_str("AMEX 9012"));
    tarjetas_credito.push(String::from_str("DISCOVER 3456"));
    let mut wallets: Vec<String> = Vec::new();
    wallets.push(String::from_str("Blockchain.com"));
    wallets.push(String::from_str("Metamask"));
    proof {
        reveal_strlit("INE");
        reveal_strlit("Comprobante de domicilio");
        reveal_strlit("Acta de nacimiento");
        assert("INE"@.len() == 3 && "Comprobante de domicilio"@.len() == 24
            && "Acta de nacimiento"@.len() == 18);
        assert("INE"@ != "Comprobante de domicilio"@);
        assert("INE"@ != "Acta de nacimiento"@);
        assert("Comprobante de domicilio"@ != "Acta de nacimiento"@);
    }
    let mut documents: StringMap<String> = StringMap::new();
    documents.insert(String::from_str("INE"), String::from_str("Contenido de INE"));
    documents.insert(
        String::from_str("Comprobante de domicilio"),
        String::from_str("Contenido de comprobante de domicilio"),
    );
    documents.insert(
        String::from_str("Acta de nacimiento"),
        String::from_str("Contenido de acta de nacimiento"),
    );
    UserProfile {
        name: String::from_str("Juan Pérez"),
        tarjetas_debito,
        tarjetas_credito,
        wallets,
        documents,
    }
}

} // verus!
