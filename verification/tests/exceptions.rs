use novaos::exceptions::{BootstrapExceptionReturnCapture, ExceptionClass, ExceptionSyndrome, ExceptionVectors};

#[test]
fn exception_syndrome_decodes_svc64() {
    let syndrome = ExceptionSyndrome::from_esr((ExceptionClass::Svc64.as_raw() as u32) << 26 | 0x44);

    assert_eq!(syndrome.class, ExceptionClass::Svc64);
    assert_eq!(syndrome.svc_imm16(), Some(0x44));
}

#[test]
fn exception_syndrome_reports_unknown_class() {
    let syndrome = ExceptionSyndrome::from_esr(0x3F << 26);

    assert_eq!(syndrome.class, ExceptionClass::Unknown);
    assert_eq!(syndrome.svc_imm16(), None);
}

#[test]
fn exception_syndrome_decodes_brk64() {
    let syndrome = ExceptionSyndrome::from_esr((ExceptionClass::Brk64.as_raw() as u32) << 26 | 0x77);

    assert_eq!(syndrome.class, ExceptionClass::Brk64);
    assert_eq!(syndrome.brk_imm16(), Some(0x77));
    assert_eq!(syndrome.svc_imm16(), None);
}

#[test]
fn exception_syndrome_keeps_iss_bits() {
    let raw = (0x24u32 << 26) | 0x1FF_FFFF;
    let syndrome = ExceptionSyndrome::from_esr(raw);
    assert_eq!(syndrome.class, ExceptionClass::DataAbortLowerEl);
    assert_eq!(syndrome.iss, 0x1FF_FFFF);
    assert_eq!(syndrome.raw, raw);
    assert_eq!(ExceptionClass::from_raw(0x20), ExceptionClass::InstructionAbortLowerEl);
}

#[test]
fn placeholder_vectors_report_uninstalled_state() {
    let vectors = ExceptionVectors::placeholder();

    assert_eq!(vectors.base, 0);
    assert!(!vectors.installed);
    assert_eq!(ExceptionVectors::runtime(), vectors);
    assert!(ExceptionVectors::from_base(0x8000).installed);
}

#[test]
fn exception_return_capture_starts_unset() {
    let capture = BootstrapExceptionReturnCapture::unset();
    assert!(!capture.is_recorded());
    assert!(BootstrapExceptionReturnCapture { frame_x0: 0, ..capture }.is_recorded());
}
