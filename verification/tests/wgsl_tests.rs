use custos::wgsl::Spirv;
use custos::wgsl::TranslateError;

#[test]
fn test_from_wgsl_compute_shader() {
    let src = "@compute @workgroup_size(1) fn main() {}";
    let spirv = Spirv::from_wgsl(src).ok().unwrap();

    let words = spirv.words().clone();
    assert!(words.len() > 2);
    // every SPIR-V module opens with the magic number
    assert_eq!(words[0], 0x0723_0203);

    let bytes = spirv.as_byte_slice();
    assert_eq!(bytes.len(), words.len() * 4);
    assert_eq!(&bytes[0..4], &[0x03, 0x02, 0x23, 0x07]);
}

#[test]
fn test_from_wgsl_rejects_bad_source() {
    let r = Spirv::from_wgsl("this is not wgsl");
    assert!(matches!(r, Err(TranslateError::Frontend(_))));
}
