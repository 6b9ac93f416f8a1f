//! Requests of the Xinerama extension.
use vstd::prelude::*;

use crate::extension::{ConnectionError, Cookie, ExtensionInformation, RequestConnection};
use x11rb_protocol::protocol::xinerama::{
    GetScreenCountRequest,
    GetScreenSizeRequest,
    GetStateRequest,
    IsActiveRequest,
    QueryScreensRequest,
    QueryVersionRequest,
};
use x11rb_protocol::x11_utils::Request;

verus! {

/// A window identifier.
pub type Window = u32;

/// The name under which the server announces the extension.
pub const X11_EXTENSION_NAME: &'static str = "XINERAMA";

/// Minor opcode of each request of the extension.
pub const QUERY_VERSION_REQUEST: u8 = 0;
pub const GET_STATE_REQUEST: u8 = 1;
pub const GET_SCREEN_COUNT_REQUEST: u8 = 2;
pub const GET_SCREEN_SIZE_REQUEST: u8 = 3;
pub const IS_ACTIVE_REQUEST: u8 = 4;
pub const QUERY_SCREENS_REQUEST: u8 = 5;

/// Bytes 2 and 3 hold the 16-bit value `n`, in either byte order.
pub open spec fn holds_u16(b: Seq<u8>, n: u8) -> bool {
    (b[2] == n && b[3] == 0) || (b[2] == 0 && b[3] == n)
}

/// The four bytes from `at` hold `v`, in either byte order.
pub open spec fn holds_u32(b: Seq<u8>, at: int, v: u32) -> bool {
    let w = seq![
        (v & 0xffu32) as u8,
        ((v >> 8u32) & 0xffu32) as u8,
        ((v >> 16u32) & 0xffu32) as u8,
        ((v >> 24u32) & 0xffu32) as u8,
    ];
    (b[at] == w[0] && b[at + 1] == w[1] && b[at + 2] == w[2] && b[at + 3] == w[3]) || (b[at]
        == w[3] && b[at + 1] == w[2] && b[at + 2] == w[1] && b[at + 3] == w[0])
}

/// A request header: the major opcode, the minor opcode, and the request's
/// length in 4-byte units.
pub open spec fn is_header(b: Seq<u8>, major_opcode: u8, minor_opcode: u8) -> bool {
    &&& b.len() % 4 == 0
    &&& b.len() >= 4
    &&& b[0] == major_opcode
    &&& b[1] == minor_opcode
    &&& holds_u16(b, (b.len() / 4) as u8)
}

/// A QueryVersion request: 8 bytes that carry the two version numbers.
pub open spec fn is_query_version(b: Seq<u8>, major_opcode: u8, major: u8, minor: u8) -> bool {
    &&& b.len() == 8
    &&& is_header(b, major_opcode, QUERY_VERSION_REQUEST)
    &&& b[4] == major && b[5] == minor && b[6] == 0 && b[7] == 0
}

/// A GetState request: 8 bytes that carry the window.
pub open spec fn is_get_state(b: Seq<u8>, major_opcode: u8, window: Window) -> bool {
    &&& b.len() == 8
    &&& is_header(b, major_opcode, GET_STATE_REQUEST)
    &&& holds_u32(b, 4, window)
}

/// A GetScreenCount request: 8 bytes that carry the window.
pub open spec fn is_get_screen_count(b: Seq<u8>, major_opcode: u8, window: Window) -> bool {
    &&& b.len() == 8
    &&& is_header(b, major_opcode, GET_SCREEN_COUNT_REQUEST)
    &&& holds_u32(b, 4, window)
}

/// A GetScreenSize request: 12 bytes that carry the window and then the screen.
pub open spec fn is_get_screen_size(b: Seq<u8>, major_opcode: u8, window: Window, screen: u32) -> bool {
    &&& b.len() == 12
    &&& is_header(b, major_opcode, GET_SCREEN_SIZE_REQUEST)
    &&& holds_u32(b, 4, window)
    &&& holds_u32(b, 8, screen)
}

/// An IsActive request: a bare 4-byte header.
pub open spec fn is_is_active(b: Seq<u8>, major_opcode: u8) -> bool {
    b.len() == 4 && is_header(b, major_opcode, IS_ACTIVE_REQUEST)
}

/// A QueryScreens request: a bare 4-byte header.
pub open spec fn is_query_screens(b: Seq<u8>, major_opcode: u8) -> bool {
    b.len() == 4 && is_header(b, major_opcode, QUERY_SCREENS_REQUEST)
}

/// Relies on x11rb-protocol's `QueryVersionRequest::serialize`: one 8-byte
/// request that carries the two version numbers.
#[verifier::external_body]
fn query_version_bytes(major_opcode: u8, major: u8, minor: u8) -> (r: Vec<u8>)
    ensures
        is_query_version(r@, major_opcode, major, minor),
{
    Request::serialize(QueryVersionRequest { major, minor }, major_opcode).0
}

/// Relies on x11rb-protocol's `GetStateRequest::serialize`: one 8-byte
/// request that carries the window.
#[verifier::external_body]
fn get_state_bytes(major_opcode: u8, window: Window) -> (r: Vec<u8>)
    ensures
        is_get_state(r@, major_opcode, window),
{
    Request::serialize(GetStateRequest { window }, major_opcode).0
}

/// Relies on x11rb-protocol's `GetScreenCountRequest::serialize`: one 8-byte
/// request that carries the window.
#[verifier::external_body]
fn get_screen_count_bytes(major_opcode: u8, window: Window) -> (r: Vec<u8>)
    ensures
        is_get_screen_count(r@, major_opcode, window),
{
    Request::serialize(GetScreenCountRequest { window }, major_opcode).0
}

/// Relies on x11rb-protocol's `GetScreenSizeRequest::serialize`: one 12-byte
/// request that carries the window and then the screen.
#[verifier::external_body]
fn get_screen_size_bytes(major_opcode: u8, window: Window, screen: u32) -> (r: Vec<u8>)
    ensures
        is_get_screen_size(r@, major_opcode, window, screen),
{
    Request::serialize(GetScreenSizeRequest { window, screen }, major_opcode).0
}

/// Relies on x11rb-protocol's `IsActiveRequest::serialize`: a bare 4-byte header.
#[verifier::external_body]
fn is_active_bytes(major_opcode: u8) -> (r: Vec<u8>)
    ensures
        is_is_active(r@, major_opcode),
{
    Request::serialize(IsActiveRequest, major_opcode).0
}

/// Relies on x11rb-protocol's `QueryScreensRequest::serialize`: a bare 4-byte header.
#[verifier::external_body]
fn query_screens_bytes(major_opcode: u8) -> (r: Vec<u8>)
    ensures
        is_query_screens(r@, major_opcode),
{
    Request::serialize(QueryScreensRequest, major_opcode).0
}

/// The major opcode that an answer of the extension service gives: its opcode
/// where the extension is present, `UnsupportedExtension` where it is absent,
/// and the connection's own failure otherwise.
pub open spec fn opcode_from(info: Result<Option<ExtensionInformation>, ConnectionError>) -> Result<
    u8,
    ConnectionError,
> {
    match info {
        Ok(Some(i)) => Ok(i.major_opcode),
        Ok(None) => Err(ConnectionError::UnsupportedExtension),
        Err(e) => Err(e),
    }
}

/// Turns an answer of the extension service into the extension's major opcode.
pub fn major_opcode_of(info: Result<Option<ExtensionInformation>, ConnectionError>) -> (r: Result<
    u8,
    ConnectionError,
>)
    ensures
        r == opcode_from(info),
{
    match info {
        Ok(Some(i)) => Ok(i.major_opcode),
        Ok(None) => Err(ConnectionError::UnsupportedExtension),
        Err(e) => Err(e),
    }
}

/// The QueryVersion request for the answer `info` of the extension service:
/// stamped with the extension's opcode, or the reason there is none.
pub fn query_version_request(
    info: Result<Option<ExtensionInformation>, ConnectionError>,
    major: u8,
    minor: u8,
) -> (r: Result<Vec<u8>, ConnectionError>)
    ensures
        opcode_from(info) is Err ==> r == Err::<Vec<u8>, ConnectionError>(opcode_from(info)->Err_0),
        opcode_from(info) is Ok ==> r is Ok && is_query_version(
            r->Ok_0@,
            opcode_from(info)->Ok_0,
            major,
            minor,
        ),
{
    match major_opcode_of(info) {
        Ok(opcode) => Ok(query_version_bytes(opcode, major, minor)),
        Err(e) => Err(e),
    }
}

/// The GetState request for the answer `info` of the extension service.
pub fn get_state_request(
    info: Result<Option<ExtensionInformation>, ConnectionError>,
    window: Window,
) -> (r: Result<Vec<u8>, ConnectionError>)
    ensures
        opcode_from(info) is Err ==> r == Err::<Vec<u8>, ConnectionError>(opcode_from(info)->Err_0),
        opcode_from(info) is Ok ==> r is Ok && is_get_state(
            r->Ok_0@,
            opcode_from(info)->Ok_0,
            window,
        ),
{
    match major_opcode_of(info) {
        Ok(opcode) => Ok(get_state_bytes(opcode, window)),
        Err(e) => Err(e),
    }
}

/// The GetScreenCount request for the answer `info` of the extension service.
pub fn get_screen_count_request(
    info: Result<Option<ExtensionInformation>, ConnectionError>,
    window: Window,
) -> (r: Result<Vec<u8>, ConnectionError>)
    ensures
        opcode_from(info) is Err ==> r == Err::<Vec<u8>, ConnectionError>(opcode_from(info)->Err_0),
        opcode_from(info) is Ok ==> r is Ok && is_get_screen_count(
            r->Ok_0@,
            opcode_from(info)->Ok_0,
            window,
        ),
{
    match major_opcode_of(info) {
        Ok(opcode) => Ok(get_screen_count_bytes(opcode, window)),
        Err(e) => Err(e),
    }
}

/// The GetScreenSize request for the answer `info` of the extension service.
pub fn get_screen_size_request(
    info: Result<Option<ExtensionInformation>, ConnectionError>,
    window: Window,
    screen: u32,
) -> (r: Result<Vec<u8>, ConnectionError>)
    ensures
        opcode_from(info) is Err ==> r == Err::<Vec<u8>, ConnectionError>(opcode_from(info)->Err_0),
        opcode_from(info) is Ok ==> r is Ok && is_get_screen_size(
            r->Ok_0@,
            opcode_from(info)->Ok_0,
            window,
            screen,
        ),
{
    match major_opcode_of(info) {
        Ok(opcode) => Ok(get_screen_size_bytes(opcode, window, screen)),
        Err(e) => Err(e),
    }
}

/// The IsActive request for the answer `info` of the extension service.
pub fn is_active_request(info: Result<Option<ExtensionInformation>, ConnectionError>) -> (r:
    Result<Vec<u8>, ConnectionError>)
    ensures
        opcode_from(info) is Err ==> r == Err::<Vec<u8>, ConnectionError>(opcode_from(info)->Err_0),
        opcode_from(info) is Ok ==> r is Ok && is_is_active(r->Ok_0@, opcode_from(info)->Ok_0),
{
    match major_opcode_of(info) {
        Ok(opcode) => Ok(is_active_bytes(opcode)),
        Err(e) => Err(e),
    }
}

/// The QueryScreens request for the answer `info` of the extension service.
pub fn query_screens_request(info: Result<Option<ExtensionInformation>, ConnectionError>) -> (r:
    Result<Vec<u8>, ConnectionError>)
    ensures
        opcode_from(info) is Err ==> r == Err::<Vec<u8>, ConnectionError>(opcode_from(info)->Err_0),
        opcode_from(info) is Ok ==> r is Ok && is_query_screens(r->Ok_0@, opcode_from(info)->Ok_0),
{
    match major_opcode_of(info) {
        Ok(opcode) => Ok(query_screens_bytes(opcode)),
        Err(e) => Err(e),
    }
}

/// Asks for the version of the extension that the server supports. The
/// request is made by `query_version_request` from the service's answer;
/// where that fails, nothing is sent and its error is returned.
pub fn query_version<C: RequestConnection>(conn: &C, major: u8, minor: u8) -> (r: Result<
    Cookie,
    ConnectionError,
>) {
    let info = conn.extension_information(X11_EXTENSION_NAME);
    let bytes = query_version_request(info, major, minor)?;
    conn.send_request_with_reply(bytes)
}

/// Asks whether the extension is enabled for the screen of `window`, through
/// `get_state_request`.
pub fn get_state<C: RequestConnection>(conn: &C, window: Window) -> (r: Result<
    Cookie,
    ConnectionError,
>) {
    let info = conn.extension_information(X11_EXTENSION_NAME);
    let bytes = get_state_request(info, window)?;
    conn.send_request_with_reply(bytes)
}

/// Asks how many physical screens make up the screen of `window`, through
/// `get_screen_count_request`.
pub fn get_screen_count<C: RequestConnection>(conn: &C, window: Window) -> (r: Result<
    Cookie,
    ConnectionError,
>) {
    let info = conn.extension_information(X11_EXTENSION_NAME);
    let bytes = get_screen_count_request(info, window)?;
    conn.send_request_with_reply(bytes)
}

/// Asks for the size of one physical screen behind the screen of `window`,
/// through `get_screen_size_request`.
pub fn get_screen_size<C: RequestConnection>(conn: &C, window: Window, screen: u32) -> (r: Result<
    Cookie,
    ConnectionError,
>) {
    let info = conn.extension_information(X11_EXTENSION_NAME);
    let bytes = get_screen_size_request(info, window, screen)?;
    conn.send_request_with_reply(bytes)
}

/// Asks whether the extension is active, through `is_active_request`.
pub fn is_active<C: RequestConnection>(conn: &C) -> (r: Result<Cookie, ConnectionError>) {
    let info = conn.extension_information(X11_EXTENSION_NAME);
    let bytes = is_active_request(info)?;
    conn.send_request_with_reply(bytes)
}

/// Asks for the position and size of every physical screen, through
/// `query_screens_request`.
pub fn query_screens<C: RequestConnection>(conn: &C) -> (r: Result<Cookie, ConnectionError>) {
    let info = conn.extension_information(X11_EXTENSION_NAME);
    let bytes = query_screens_request(info)?;
    conn.send_request_with_reply(bytes)
}

/// The requests of the extension as methods of any connection.
pub trait ConnectionExt: RequestConnection + Sized {
    fn xinerama_query_version(&self, major: u8, minor: u8) -> Result<Cookie, ConnectionError> {
        query_version(self, major, minor)
    }

    fn xinerama_get_state(&self, window: Window) -> Result<Cookie, ConnectionError> {
        get_state(self, window)
    }

    fn xinerama_get_screen_count(&self, window: Window) -> Result<Cookie, ConnectionError> {
        get_screen_count(self, window)
    }

    fn xinerama_get_screen_size(&self, window: Window, screen: u32) -> Result<
        Cookie,
        ConnectionError,
    > {
        get_screen_size(self, window, screen)
    }

    fn xinerama_is_active(&self) -> Result<Cookie, ConnectionError> {
        is_active(self)
    }

    fn xinerama_query_screens(&self) -> Result<Cookie, ConnectionError> {
        query_screens(self)
    }
}

impl<C: RequestConnection> ConnectionExt for C {

}

} // verus!
