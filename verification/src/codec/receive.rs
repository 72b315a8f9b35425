//! The send/receive protocol shared by decoders, encoders and filter graphs.

use vstd::prelude::*;
use crate::error::{AVERROR_EAGAIN, AVERROR_EOF, Error, Result, check, is_internal_code};

verus! {

/// The outcome of a `receive_frame`/`receive_packet`/`buffersink_get_frame` call.
#[derive(Clone, Copy, Debug, PartialEq, Eq, Structural)]
pub enum Receive {
    /// A frame/packet was produced.
    Got,
    /// The codec needs more input before it can produce output.
    Again,
    /// The codec is fully drained; no more output will come.
    Eof,
}

impl Receive {
    /// Classify a receive return code: `0` is output, `AVERROR(EAGAIN)` and `AVERROR_EOF`
    /// are the two non-error stop conditions, anything else is an error. Uses `EAGAIN` as
    /// Linux and Windows number it; see [`Receive::classify`] for other platforms.
    pub fn from_code(ret: i32) -> (r: Result<Receive>)
        ensures
            ret == 0 ==> r == Ok::<Receive, Error>(Receive::Got),
            ret == AVERROR_EAGAIN ==> r == Ok::<Receive, Error>(Receive::Again),
            ret == AVERROR_EOF ==> r == Ok::<Receive, Error>(Receive::Eof),
            ret != 0 && ret != AVERROR_EAGAIN && ret != AVERROR_EOF ==> (r matches Err(e)
                && is_internal_code(e, ret)),
    {
        Receive::classify(ret, AVERROR_EAGAIN)
    }

    /// Classify a receive return code on a platform whose `AVERROR(EAGAIN)` is `again` (`-11`
    /// on Linux and Windows, `-35` on macOS and the BSDs).
    pub fn classify(ret: i32, again: i32) -> (r: Result<Receive>)
        requires
            again < 0,
            again != AVERROR_EOF,
        ensures
            ret == 0 ==> r == Ok::<Receive, Error>(Receive::Got),
            ret == again ==> r == Ok::<Receive, Error>(Receive::Again),
            ret == AVERROR_EOF ==> r == Ok::<Receive, Error>(Receive::Eof),
            ret != 0 && ret != again && ret != AVERROR_EOF ==> (r matches Err(e) && is_internal_code(
                e,
                ret,
            )),
    {
        if ret == 0 {
            Ok(Receive::Got)
        } else if ret == again {
            Ok(Receive::Again)
        } else if ret == AVERROR_EOF {
            Ok(Receive::Eof)
        } else {
            Err(Error::from_code(ret))
        }
    }
}

/// Classify a send return code: sending after end of stream (`AVERROR_EOF`) is harmless,
/// any other negative code is an error.
pub fn send_status(ret: i32) -> (r: Result<()>)
    ensures
        r is Ok <==> (ret >= 0 || ret == AVERROR_EOF),
        r matches Err(e) ==> is_internal_code(e, ret),
{
    if ret == AVERROR_EOF {
        Ok(())
    } else {
        check(ret)
    }
}

/// One step of a receive/drain loop: on `Got`, take the produced item; on `Again`/`Eof`,
/// stop; on error, surface it.
pub fn drain_received<T, F: FnOnce() -> Result<T>>(received: Result<Receive>, take: F) -> (r: Option<
    Result<T>,
>)
    requires
        received == Ok::<Receive, Error>(Receive::Got) ==> take.requires(()),
    ensures
        match received {
            Ok(Receive::Got) => r matches Some(x) && take.ensures((), x),
            Ok(_) => r is None,
            Err(e) => r matches Some(Err(e2)) && e2 == e,
        },
{
    match received {
        Ok(Receive::Got) => Some(take()),
        Ok(Receive::Again) => None,
        Ok(Receive::Eof) => None,
        Err(e) => Some(Err(e)),
    }
}

} // verus!
