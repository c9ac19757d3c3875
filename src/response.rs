use vstd::prelude::*;
use crate::pager::{PageStep, Pager};

verus! {

/// Why a call failed. Every failure reaches the caller as one of these.
#[derive(Debug)]
pub enum ClientError {
    /// The exchange itself failed: connection, timeout, name lookup, TLS.
    Transport { message: String },
    /// The server answered with a status outside 2xx; its body is kept as it came.
    Http { status: u16, body: Vec<u8> },
    /// The body did not have the expected shape; the raw body is kept for diagnostics.
    Decode { raw: Vec<u8>, cause: String },
    /// A listing still had a continuation after its page bound.
    PageLimit { max_pages: u64 },
    /// A listing's continuation named a page that was fetched already.
    RepeatedPage { address: Vec<u8> },
}

pub open spec fn is_success(status: u16) -> bool {
    200 <= status < 300
}

/// Sorts a response by its status: the body of a 2xx response goes on to decoding, any other
/// becomes an HTTP failure that carries the status and the body.
pub fn check_status(status: u16, body: Vec<u8>) -> (r: Result<Vec<u8>, ClientError>)
    ensures
        is_success(status) ==> (r matches Ok(b) && b@ == body@),
        !is_success(status) ==> (r matches Err(ClientError::Http { status: s, body: b }) && s == status
            && b@ == body@),
{
    if 200 <= status && status < 300 {
        Ok(body)
    } else {
        Err(ClientError::Http { status, body })
    }
}

/// The result of a call once its body has been decoded: the value, or a decode failure that
/// keeps the raw body and the cause.
pub fn decoded<T>(raw: Vec<u8>, outcome: Result<T, String>) -> (r: Result<T, ClientError>)
    ensures
        outcome matches Ok(v) ==> r == Ok::<T, ClientError>(v),
        outcome matches Err(c) ==> (r matches Err(ClientError::Decode { raw: x, cause: y }) && x@ == raw@
            && y@ == c@),
{
    match outcome {
        Ok(v) => Ok(v),
        Err(cause) => Err(ClientError::Decode { raw, cause }),
    }
}

/// The end of a listing: every item in page order once no continuation is left, a failure
/// when the bound was hit or a page came round again. No partial list is handed out.
pub fn finish<T>(pager: Pager<T>, step: PageStep) -> (r: Result<Vec<T>, ClientError>)
    requires
        !(step is Fetch),
    ensures
        step is Finished ==> (r matches Ok(v) && v@ == pager.items@),
        step is LimitReached ==> (r matches Err(ClientError::PageLimit { max_pages: m }) && m
            == pager.max_pages),
        step matches PageStep::Repeated(u) ==> (r matches Err(ClientError::RepeatedPage { address: a })
            && a@ == u@),
{
    let max_pages = pager.max_pages;
    match step {
        PageStep::Finished => Ok(pager.into_items()),
        PageStep::LimitReached => Err(ClientError::PageLimit { max_pages }),
        PageStep::Repeated(address) => Err(ClientError::RepeatedPage { address }),
        PageStep::Fetch(_) => Err(ClientError::PageLimit { max_pages }),
    }
}

} // verus!
