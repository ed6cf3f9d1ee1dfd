//! Loading a file or asset: from what the platform's loader handed back to
//! the response that the application's completion callback receives.
use vstd::prelude::*;

verus! {

/// The error of the standard library's input and output functions. Nothing
/// is known of what a value holds; it is carried to the application as it is.
#[verifier::external_type_specification]
#[verifier::external_body]
pub struct ExIoError(std::io::Error);

/// Why a file could not be loaded.
#[derive(Debug)]
pub enum Error {
    /// Opening or reading the file failed.
    IOError(std::io::Error),
    DownloadFailed,
    /// The Android asset manager has no content for the path.
    AndroidAssetLoadingError,
    /// The application bundle has no resource of that name.
    IOSAssetNoSuchFile,
    /// The resource exists but its data could not be had.
    IOSAssetNoData,
}

impl From<std::io::Error> for Error {
    fn from(e: std::io::Error) -> (error: Error) {
        Error::IOError(e)
    }
}

impl vstd::std_specs::convert::FromSpecImpl<std::io::Error> for Error {
    open spec fn obeys_from_spec() -> bool {
        true
    }

    open spec fn from_spec(e: std::io::Error) -> Error {
        Error::IOError(e)
    }
}

/// What a completion callback receives: the bytes, or the reason there are none.
pub type Response = Result<Vec<u8>, Error>;

/// What the platform's loader handed back for one path.
#[derive(Debug)]
pub enum Loaded {
    /// From the file system: the bytes read, or the error of opening or reading.
    File(Result<Vec<u8>, std::io::Error>),
    /// From the Android asset manager: the asset's content, if it has one.
    AndroidAsset(Option<Vec<u8>>),
    /// From the application bundle: whether the resource was found, and its
    /// data if that could be had.
    BundleResource { found: bool, data: Option<Vec<u8>> },
}

/// The response that is owed for what the loader handed back.
pub open spec fn response_for(loaded: Loaded) -> Response {
    match loaded {
        Loaded::File(Ok(bytes)) => Ok(bytes),
        Loaded::File(Err(e)) => Err(Error::IOError(e)),
        Loaded::AndroidAsset(Some(bytes)) => Ok(bytes),
        Loaded::AndroidAsset(None) => Err(Error::AndroidAssetLoadingError),
        Loaded::BundleResource { found: false, data: _ } => Err(Error::IOSAssetNoSuchFile),
        Loaded::BundleResource { found: true, data: None } => Err(Error::IOSAssetNoData),
        Loaded::BundleResource { found: true, data: Some(bytes) } => Ok(bytes),
    }
}

/// Turns what the loader handed back into a response.
pub fn response(loaded: Loaded) -> (response: Response)
    ensures
        response == response_for(loaded),
{
    match loaded {
        Loaded::File(Ok(bytes)) => Ok(bytes),
        Loaded::File(Err(e)) => Err(Error::from(e)),
        Loaded::AndroidAsset(Some(bytes)) => Ok(bytes),
        Loaded::AndroidAsset(None) => Err(Error::AndroidAssetLoadingError),
        Loaded::BundleResource { found, data } => {
            if !found {
                Err(Error::IOSAssetNoSuchFile)
            } else {
                match data {
                    Some(bytes) => Ok(bytes),
                    None => Err(Error::IOSAssetNoData),
                }
            }
        },
    }
}

/// Completes a load: the callback is invoked once, with the response that is
/// owed for what the loader handed back. This is the one way a load ends,
/// whether the platform's loader worked while the caller waited or not.
pub fn load_file<F: Fn(Response) + 'static>(loaded: Loaded, on_loaded: F)
    requires
        call_requires(on_loaded, (response_for(loaded),)),
    ensures
        call_ensures(on_loaded, (response_for(loaded),), ()),
{
    let response: Response = response(loaded);
    on_loaded(response)
}

} // verus!
