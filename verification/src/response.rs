//! Assembly of an HTTP response in a buffer of fixed size.

use crate::html::{HTML_HEADER, HTML_MENU, HTML_TAIL};
use vstd::prelude::*;
use vstd::string::StringSliceAdditionalSpecFns;

verus! {

/// The status line and header fields of every response.
pub const HTTP_HEADERS: &'static str =
    "HTTP/1.1 200 OK\r\nContent-Type: text/html; charset=utf-8\r\nConnection: close\r\n\r\n";

/// The size of the buffers of the TCP socket and of the response.
pub const TCP_BUFFER_SIZE: usize = 4096;

/// Why a response could not be assembled.
#[derive(Clone, Copy, Debug, PartialEq, Eq, Structural)]
pub enum ResponseError {
    /// The response does not fit in the buffer.
    TooLarge,
}

/// The bytes of the response that carries `html`: the HTTP header fields,
/// the head of the page, `html`, the menu and the end of the page.
pub open spec fn response_bytes(html: Seq<u8>) -> Seq<u8> {
    HTTP_HEADERS.spec_bytes() + HTML_HEADER.spec_bytes() + html + HTML_MENU.spec_bytes()
        + HTML_TAIL.spec_bytes()
}

/// `total + len` if that fits the buffer.
fn add_within(total: usize, len: usize) -> (r: Option<usize>)
    requires
        total <= TCP_BUFFER_SIZE,
    ensures
        r == if total + len <= TCP_BUFFER_SIZE {
            Some((total + len) as usize)
        } else {
            None
        },
{
    if len > TCP_BUFFER_SIZE - total {
        None
    } else {
        Some(total + len)
    }
}

/// The sum of the five lengths if it fits the buffer.
fn response_len(a: usize, b: usize, c: usize, d: usize, e: usize) -> (r: Option<usize>)
    ensures
        r == if a + b + c + d + e <= TCP_BUFFER_SIZE {
            Some((a + b + c + d + e) as usize)
        } else {
            None
        },
{
    let ab = add_within(0, a)?;
    let abc = add_within(add_within(ab, b)?, c)?;
    add_within(add_within(abc, d)?, e)
}

/// Writes `src` into `buffer` from `offset` on.
fn copy_into(buffer: &mut [u8; TCP_BUFFER_SIZE], offset: usize, src: &[u8])
    requires
        offset + src@.len() <= TCP_BUFFER_SIZE,
    ensures
        final(buffer)@ == old(buffer)@.take(offset as int) + src@ + old(buffer)@.skip(
            offset + src@.len(),
        ),
{
    let mut i: usize = 0;
    while i < src.len()
        invariant
            i <= src@.len(),
            offset + src@.len() <= TCP_BUFFER_SIZE,
            buffer@.len() == TCP_BUFFER_SIZE,
            forall|j: int| 0 <= j < offset ==> buffer@[j] == old(buffer)@[j],
            forall|j: int| 0 <= j < i ==> buffer@[offset + j] == src@[j],
            forall|j: int| offset + i <= j < TCP_BUFFER_SIZE ==> buffer@[j] == old(buffer)@[j],
        decreases src@.len() - i,
    {
        buffer[offset + i] = src[i];
        i += 1;
    }
    assert(buffer@ =~= old(buffer)@.take(offset as int) + src@ + old(buffer)@.skip(
        offset + src@.len(),
    ));
}

/// Writes the response that carries `html_content` to the start of `buffer`
/// and returns its length. A response that is longer than the buffer is an
/// error, and then the buffer is left as it was.
pub fn generate_http_response(html_content: &[u8], buffer: &mut [u8; TCP_BUFFER_SIZE]) -> (r:
    Result<usize, ResponseError>)
    ensures
        r is Ok <==> response_bytes(html_content@).len() <= TCP_BUFFER_SIZE,
        r matches Ok(n) ==> {
            &&& n == response_bytes(html_content@).len()
            &&& final(buffer)@.take(n as int) == response_bytes(html_content@)
            &&& final(buffer)@.skip(n as int) == old(buffer)@.skip(n as int)
        },
        r matches Err(e) ==> e == ResponseError::TooLarge && final(buffer)@ == old(buffer)@,
{
    let headers = HTTP_HEADERS.as_bytes();
    let head = HTML_HEADER.as_bytes();
    let menu = HTML_MENU.as_bytes();
    let tail = HTML_TAIL.as_bytes();
    let total = match response_len(headers.len(), head.len(), html_content.len(), menu.len(), tail.len()) {
        Some(total) => total,
        None => {
            return Err(ResponseError::TooLarge);
        },
    };
    let mut offset: usize = 0;
    copy_into(buffer, offset, headers);
    offset += headers.len();
    copy_into(buffer, offset, head);
    offset += head.len();
    copy_into(buffer, offset, html_content);
    offset += html_content.len();
    copy_into(buffer, offset, menu);
    offset += menu.len();
    copy_into(buffer, offset, tail);
    Ok(total)
}

} // verus!
