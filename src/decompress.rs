use vstd::prelude::*;

verus! {

/// Archive formats a download can be unpacked from.
#[derive(Debug, Clone, Copy, PartialEq, Eq, Structural)]
pub enum DecompressionMethod {
    /// A gzip-compressed tar archive.
    TarGzip,
    /// A zip archive.
    Zip,
}

/// How a downloaded archive is unpacked.
#[derive(Debug, Clone)]
pub struct DLDecompressionConfig {
    /// Archive format.
    pub method: DecompressionMethod,
    /// Output directory.
    pub output: String,
    /// Whether the archive is deleted once unpacked.
    pub delete_after: bool,
}

/// Model of a [`DLDecompressionConfig`]: method, output directory and
/// whether the archive is deleted afterwards.
pub type DecompressionModel = (DecompressionMethod, Seq<char>, bool);

impl View for DLDecompressionConfig {
    type V = DecompressionModel;

    open spec fn view(&self) -> DecompressionModel {
        (self.method, self.output@, self.delete_after)
    }
}

impl DLDecompressionConfig {
    /// Unpacks with `method` into `output`, deleting the archive afterwards.
    pub fn new(method: DecompressionMethod, output: &str) -> (r: Self)
        ensures
            r@ == (method, output@, true),
    {
        DLDecompressionConfig { method, output: output.to_owned(), delete_after: true }
    }

    /// Sets the archive format.
    pub fn with_method(self, method: DecompressionMethod) -> (r: Self)
        ensures
            r@ == (method, self@.1, self@.2),
    {
        DLDecompressionConfig { method, ..self }
    }

    /// Sets the output directory.
    pub fn with_output(self, output: String) -> (r: Self)
        ensures
            r@ == (self@.0, output@, self@.2),
    {
        DLDecompressionConfig { output, ..self }
    }

    /// Sets whether the archive is deleted once unpacked.
    pub fn with_delete_after(self, delete_after: bool) -> (r: Self)
        ensures
            r@ == (self@.0, self@.1, delete_after),
    {
        DLDecompressionConfig { delete_after, ..self }
    }

    /// Deletes the archive once unpacked.
    pub fn delete_after(self) -> (r: Self)
        ensures
            r@ == (self@.0, self@.1, true),
    {
        DLDecompressionConfig { delete_after: true, ..self }
    }
}

/// Unpacks an archive file into a directory.
pub trait Decompressor {
    fn decompress(file: &str, path: &str) -> Result<(), String>;
}

} // verus!
