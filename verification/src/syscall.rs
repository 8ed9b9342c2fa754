use vstd::prelude::*;

verus! {

/// Calls `std::io::Error::last_os_error`, which reads the calling thread's
/// `errno`. Nothing is stated of the error it builds: it depends on what the
/// last failing system call left behind.
#[verifier::external_body]
fn last_os_error() -> std::io::Error {
    std::io::Error::last_os_error()
}

/// Check the return value of a system call that returns a C `int`: a
/// non-negative value is a success and is handed back unchanged, a negative one
/// is a failure described by `errno`.
pub fn check_return(value: i32) -> (r: Result<i32, std::io::Error>)
    ensures
        r is Ok <==> value >= 0,
        r matches Ok(v) ==> v == value,
{
    if value >= 0 {
        Ok(value)
    } else {
        Err(last_os_error())
    }
}

/// Check the return value of a system call that returns a byte count
/// (`ssize_t`): a non-negative value is a success and becomes the count, a
/// negative one is a failure described by `errno`.
pub fn check_return_size(value: isize) -> (r: Result<usize, std::io::Error>)
    ensures
        r is Ok <==> value >= 0,
        r matches Ok(n) ==> n as int == value as int,
{
    if value < 0 {
        Err(last_os_error())
    } else {
        Ok(value as usize)
    }
}

/// `v` converted to a `u16`, or `u16::MAX` where it does not fit.
pub open spec fn saturated_u16(v: u32) -> u16 {
    if v <= u16::MAX {
        v as u16
    } else {
        u16::MAX
    }
}

/// Saturation keeps every dimension that fits in 16 bits as it is, and maps
/// exactly the ones that do not fit to 65535.
pub proof fn saturation_keeps_what_fits(v: u32)
    ensures
        v <= 65535 ==> saturated_u16(v) == v,
        v > 65535 ==> saturated_u16(v) == 65535,
        saturated_u16(v) == 65535 ==> v >= 65535,
{
}

/// Convert a terminal dimension to the 16 bits the kernel keeps, saturating
/// at `u16::MAX`.
pub fn saturate_to_u16(v: u32) -> (r: u16)
    ensures
        r == saturated_u16(v),
        v <= 65535 ==> r == v,
        v > 65535 ==> r == 65535,
{
    if v <= 65535u32 {
        v as u16
    } else {
        u16::MAX
    }
}

/// The fields of the kernel's `struct winsize`, as passed to `TIOCSWINSZ`.
#[derive(Clone, Copy, Debug, PartialEq, Eq, Structural)]
pub struct WindowSize {
    pub ws_row: u16,
    pub ws_col: u16,
    pub ws_xpixel: u16,
    pub ws_ypixel: u16,
}

impl WindowSize {
    /// The window size that resizing a pseudo terminal to `width` columns and
    /// `height` rows requests: each dimension saturated to 16 bits, no pixel size.
    pub fn for_terminal(width: u32, height: u32) -> (r: WindowSize)
        ensures
            r.ws_col == saturated_u16(width),
            r.ws_row == saturated_u16(height),
            width <= 65535 ==> r.ws_col == width,
            width > 65535 ==> r.ws_col == 65535,
            height <= 65535 ==> r.ws_row == height,
            height > 65535 ==> r.ws_row == 65535,
            r.ws_xpixel == 0,
            r.ws_ypixel == 0,
    {
        WindowSize {
            ws_col: saturate_to_u16(width),
            ws_row: saturate_to_u16(height),
            ws_xpixel: 0,
            ws_ypixel: 0,
        }
    }
}

/// The buffer holds a NUL byte.
pub open spec fn has_nul(buffer: Seq<u8>) -> bool {
    exists|i: int| 0 <= i < buffer.len() && buffer[i] == 0
}

/// `name` is what a C string in `buffer` holds: the bytes before the first NUL.
pub open spec fn is_c_string_of(name: Seq<u8>, buffer: Seq<u8>) -> bool {
    &&& name.len() < buffer.len()
    &&& name == buffer.take(name.len() as int)
    &&& buffer[name.len() as int] == 0
    &&& forall|i: int| 0 <= i < name.len() ==> name[i] != 0
}

/// The name of the child terminal device that `ptsname_r` wrote into `buffer`:
/// the bytes before the terminating NUL.
pub fn child_terminal_name(buffer: &[u8]) -> (name: Vec<u8>)
    requires
        has_nul(buffer@),
    ensures
        is_c_string_of(name@, buffer@),
{
    let mut name: Vec<u8> = Vec::new();
    let mut i: usize = 0;
    while buffer[i] != 0
        invariant
            i < buffer@.len(),
            has_nul(buffer@),
            name@ == buffer@.take(i as int),
            forall|j: int| 0 <= j < i ==> buffer@[j] != 0,
        decreases buffer@.len() - i,
    {
        name.push(buffer[i]);
        i = i + 1;
    }
    name
}

} // verus!
