use document_registry::frontend::{
    classify_upload, credential_verdict_accepts, demo_user_profile, UploadVerdict,
};

#[test]
fn credential_verdict_rule() {
    assert!(credential_verdict_accepts(&"VALIDA".to_string()));
    assert!(!credential_verdict_accepts(&"INVALIDA".to_string()));
    assert!(!credential_verdict_accepts(&"valida".to_string()));
    assert!(!credential_verdict_accepts(&"".to_string()));
}

#[test]
fn upload_screening_verdicts() {
    assert_eq!(classify_upload(&Vec::new()), UploadVerdict::EmptyFile);
    assert_eq!(classify_upload(&Vec::from("report.txt")), UploadVerdict::NotPdf);
    assert_eq!(classify_upload(&Vec::from("pdf")), UploadVerdict::NotPdf);
    assert_eq!(classify_upload(&Vec::from("a.pdf")), UploadVerdict::Accepted);
    assert_eq!(classify_upload(&Vec::from(".pdf")), UploadVerdict::Accepted);
}

#[test]
fn demo_profile_contents() {
    let profile = demo_user_profile();
    assert_eq!(profile.name, "Juan Pérez".to_string());
    assert_eq!(profile.tarjetas_debito, vec!["VISA 1234".to_string(), "MASTERCARD 5678".to_string()]);
    assert_eq!(profile.tarjetas_credito, vec!["AMEX 9012".to_string(), "DISCOVER 3456".to_string()]);
    assert_eq!(profile.wallets, vec!["Blockchain.com".to_string(), "Metamask".to_string()]);
    assert_eq!(
        profile.documents.get(&"INE".to_string()),
        Some(&"Contenido de INE".to_string())
    );
    assert_eq!(
        profile.documents.get(&"Comprobante de domicilio".to_string()),
        Some(&"Contenido de comprobante de domicilio".to_string())
    );
    assert_eq!(
        profile.documents.get(&"Acta de nacimiento".to_string()),
        Some(&"Contenido de acta de nacimiento".to_string())
    );
}
