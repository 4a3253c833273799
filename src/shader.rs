use vstd::prelude::*;
use vstd::string::StringExecFns;

verus! {

/// `GL_COMPILE_STATUS`: the compile status of a shader object.
pub const GL_COMPILE_STATUS: u32 = 0x8B81;

/// `GL_LINK_STATUS`: the link status of a program object.
pub const GL_LINK_STATUS: u32 = 0x8B82;

/// `GL_NO_ERROR`: what `glGetError` returns while no error is recorded.
pub const GL_NO_ERROR: u32 = 0;

/// Bytes set aside for an info log.
pub const INFO_LOG_CAPACITY: i32 = 1024;

/// The text of `bytes` read as UTF-8, each invalid sequence replaced by
/// U+FFFD.
pub uninterp spec fn lossy_text(bytes: Seq<u8>) -> Seq<char>;

/// Relies on `String::from_utf8_lossy`: the text of the bytes as UTF-8 with
/// invalid sequences replaced; it depends on the bytes alone.
#[verifier::external_body]
fn utf8_lossy(bytes: &Vec<u8>) -> (r: String)
    ensures
        r@ == lossy_text(bytes@),
{
    String::from_utf8_lossy(bytes.as_slice()).into_owned()
}

/// Which object query reads a given status.
#[derive(Debug, Clone, Copy, PartialEq, Eq, Structural)]
pub enum StatusQuery {
    /// `glGetShaderiv`, for the compile status of a shader.
    Shader,
    /// `glGetProgramiv`, for the link status of a program.
    Program,
    /// No query applies: the status stays unset, that is failed.
    Unqueried,
}

pub open spec fn status_query_of(status: u32) -> StatusQuery {
    if status == GL_COMPILE_STATUS {
        StatusQuery::Shader
    } else if status == GL_LINK_STATUS {
        StatusQuery::Program
    } else {
        StatusQuery::Unqueried
    }
}

/// The query that reads `status`.
pub fn status_query(status: u32) -> (r: StatusQuery)
    ensures
        r == status_query_of(status),
{
    if status == GL_COMPILE_STATUS {
        StatusQuery::Shader
    } else if status == GL_LINK_STATUS {
        StatusQuery::Program
    } else {
        StatusQuery::Unqueried
    }
}

/// A shader that failed to compile or a program that failed to link, with
/// the bytes of its info log.
pub struct ShaderError {
    log: Vec<u8>,
}

impl View for ShaderError {
    type V = Seq<u8>;

    closed spec fn view(&self) -> Seq<u8> {
        self.log@
    }
}

/// The message that reports a failure whose info log reads `text`.
pub open spec fn error_message_of(text: Seq<char>) -> Seq<char> {
    "Shader Compile Error: "@ + text
}

/// The message that reports a failure whose info log reads `text`.
pub fn error_message(text: &str) -> (r: String)
    ensures
        r@ == error_message_of(text@),
{
    let mut m = String::from_str("Shader Compile Error: ");
    m.append(text);
    m
}

impl ShaderError {
    /// The bytes of the info log.
    pub fn log(&self) -> (r: &Vec<u8>)
        ensures
            r@ == self@,
    {
        &self.log
    }

    /// The failure reported with the info log as text.
    pub fn message(&self) -> (r: String)
        ensures
            r@ == error_message_of(lossy_text(self@)),
    {
        let text = utf8_lossy(&self.log);
        error_message(text.as_str())
    }
}

/// The outcome of a compile or link: success when the queried status is
/// non-zero; else the failure, with the first `log_len` bytes of `log`,
/// the buffer that the info log was written to.
pub fn check_status(success: i32, log: &Vec<u8>, log_len: i32) -> (r: Result<(), ShaderError>)
    requires
        success != 0 || 0 <= log_len <= log@.len(),
    ensures
        r is Ok <==> success != 0,
        r matches Err(e) ==> e@ == log@.subrange(0, log_len as int),
{
    if success != 0 {
        return Ok(());
    }
    let n = log_len as usize;
    let mut bytes: Vec<u8> = Vec::new();
    let mut i: usize = 0;
    while i < n
        invariant
            n <= log@.len(),
            i <= n,
            bytes@ == log@.subrange(0, i as int),
        decreases n - i,
    {
        bytes.push(log[i]);
        assert(bytes@ =~= log@.subrange(0, i + 1));
        i = i + 1;
    }
    Err(ShaderError { log: bytes })
}

/// An error code that `glGetError` reported.
#[derive(Debug, Clone, Copy, PartialEq, Eq, Structural)]
pub struct GlError {
    pub code: u32,
}

/// Success while `glGetError` reports no error, else the code it reported.
pub fn check_gl_error(code: u32) -> (r: Result<(), GlError>)
    ensures
        r is Ok <==> code == GL_NO_ERROR,
        r matches Err(e) ==> e.code == code,
{
    if code == GL_NO_ERROR {
        Ok(())
    } else {
        Err(GlError { code })
    }
}

} // verus!
