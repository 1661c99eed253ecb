use vstd::prelude::*;

verus! {

/// Something that can be told about download progress.
///
/// The library itself never drives a download; the shell around it does, and
/// invokes the attached listener synchronously from within the blocking
/// download path: once per fetched unit via `update`, bracketed by `init`
/// and `finish`.  A listener must not block indefinitely, since a slow
/// callback stalls construction.
pub trait ProgressListener {
    /// A download of `size` bytes for the named file is starting.
    fn init(&mut self, size: usize, filename: &str);

    /// Another `size` bytes have arrived.
    fn update(&mut self, size: usize);

    /// The download has completed.
    fn finish(&mut self);
}

/// Wrapper for values that carry no useful textual rendering of their own,
/// such as an attached progress callback.
#[derive(Clone)]
pub struct DebugIgnored<T>(pub T);

impl<T> DebugIgnored<T> {
    /// The fixed placeholder shown wherever the wrapped value would be
    /// rendered.
    pub fn placeholder() -> (r: &'static str)
        ensures
            r@ == "<custom progress>"@,
    {
        "<custom progress>"
    }

    /// Give up the wrapper and hand the value back.
    pub fn into_inner(self) -> (r: T)
        ensures
            r == self.0,
    {
        self.0
    }
}

} // verus!
