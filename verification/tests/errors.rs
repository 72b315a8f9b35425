use media::codec::receive::{Receive, send_status};
use media::error::{averror, check, fferrtag, mktag, Error, AVERROR_EAGAIN, AVERROR_EOF, EAGAIN};

#[test]
fn averror_eof_matches_ffmpeg() {
    // FFERRTAG('E','O','F',' ') == -('E' | 'O'<<8 | 'F'<<16 | ' '<<24).
    assert_eq!(AVERROR_EOF, -541_478_725);
}

#[test]
fn averror_eagain_is_negative_errno() {
    assert_eq!(AVERROR_EAGAIN, -EAGAIN);
}

#[test]
fn check_maps_sign() {
    assert!(check(0).is_ok());
    assert!(check(1).is_ok());
    assert!(check(-1).is_err());
}

#[test]
fn eof_tag_is_built_from_its_letters() {
    assert_eq!(mktag(b'E', b'O', b'F', b' '), 541_478_725);
    assert_eq!(fferrtag(b'E', b'O', b'F', b' '), AVERROR_EOF);
    assert_eq!(averror(EAGAIN), AVERROR_EAGAIN);
}

#[test]
fn check_keeps_the_failing_code() {
    match check(-22) {
        Err(Error::Internal { code, message }) => {
            assert_eq!(code, -22);
            assert!(message.is_empty());
        }
        other => panic!("unexpected {:?}", other),
    }
}

#[test]
fn receive_codes_are_classified() {
    assert!(matches!(Receive::from_code(0), Ok(Receive::Got)));
    assert!(matches!(Receive::from_code(AVERROR_EAGAIN), Ok(Receive::Again)));
    assert!(matches!(Receive::from_code(AVERROR_EOF), Ok(Receive::Eof)));
    assert!(matches!(Receive::from_code(-5), Err(Error::Internal { code: -5, .. })));
    assert!(send_status(0).is_ok());
    assert!(send_status(AVERROR_EOF).is_ok());
    assert!(matches!(send_status(-12), Err(Error::Internal { code: -12, .. })));
}

#[test]
fn paths_with_nul_are_refused() {
    assert!(media::error::check_path("clips/in.mp4").is_ok());
    assert!(matches!(media::error::check_path("in\0.mp4"), Err(Error::InvalidPath)));
}

#[test]
fn the_again_code_follows_the_platform() {
    let bsd_again = -media::error::EAGAIN_BSD;
    assert!(matches!(Receive::classify(bsd_again, bsd_again), Ok(Receive::Again)));
    assert!(matches!(Receive::classify(AVERROR_EAGAIN, bsd_again), Err(Error::Internal { code: -11, .. })));
    assert!(matches!(Receive::classify(AVERROR_EOF, bsd_again), Ok(Receive::Eof)));
    assert!(matches!(Receive::classify(0, bsd_again), Ok(Receive::Got)));
}
