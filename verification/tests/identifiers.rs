use chameleon_zk::types::BackendType;

#[test]
fn backend_names_and_security_levels() {
    assert_eq!(BackendType::BN254.name(), "BN254");
    assert_eq!(BackendType::BLS12_381.name(), "BLS12-381");
    assert_eq!(BackendType::BN254.security_bits(), 100);
    assert_eq!(BackendType::BLS12_381.security_bits(), 128);
}
