//! The platforms that a build can be made for.

use vstd::prelude::*;
use vstd::string::*;
use crate::text::spelled;

verus! {

/// A platform, or the name of something that is none.
#[derive(Debug, PartialEq, Eq)]
pub enum Platform {
    Android,
    IOS,
    Linux,
    MacOS,
    Windows,
    /// What was asked for under a name that no platform has.
    Unknown(String),
}

/// What a [`Platform`] is in contracts.
pub enum PlatformView {
    Android,
    IOS,
    Linux,
    MacOS,
    Windows,
    Unknown(Seq<char>),
}

impl View for Platform {
    type V = PlatformView;

    open spec fn view(&self) -> PlatformView {
        match *self {
            Platform::Android => PlatformView::Android,
            Platform::IOS => PlatformView::IOS,
            Platform::Linux => PlatformView::Linux,
            Platform::MacOS => PlatformView::MacOS,
            Platform::Windows => PlatformView::Windows,
            Platform::Unknown(id) => PlatformView::Unknown(id@),
        }
    }
}

impl Clone for Platform {
    fn clone(&self) -> (copy: Platform)
        ensures
            copy@ == self@,
    {
        match self {
            Platform::Android => Platform::Android,
            Platform::IOS => Platform::IOS,
            Platform::Linux => Platform::Linux,
            Platform::MacOS => Platform::MacOS,
            Platform::Windows => Platform::Windows,
            Platform::Unknown(id) => Platform::Unknown(id.clone()),
        }
    }
}

/// The platform that an identifier in lower case stands for.
pub open spec fn platform_named(id: Seq<char>) -> PlatformView {
    if id == "android"@ {
        PlatformView::Android
    } else if id == "ios"@ {
        PlatformView::IOS
    } else if id == "linux"@ {
        PlatformView::Linux
    } else if id == "macos"@ {
        PlatformView::MacOS
    } else if id == "windows"@ {
        PlatformView::Windows
    } else {
        PlatformView::Unknown(id)
    }
}

/// The name that a platform is shown under; for an unknown one, the
/// identifier that was asked for.
pub open spec fn platform_name(platform: PlatformView) -> Seq<char> {
    match platform {
        PlatformView::Android => "Android"@,
        PlatformView::IOS => "IOS"@,
        PlatformView::Linux => "Linux"@,
        PlatformView::MacOS => "MacOS"@,
        PlatformView::Windows => "Windows"@,
        PlatformView::Unknown(id) => id,
    }
}

/// The text in lower case, as `str::to_lowercase` of the standard library
/// gives it.
pub uninterp spec fn lowercase(text: Seq<char>) -> Seq<char>;

/// `str::to_lowercase` of the standard library: the result is a new string,
/// and depends on nothing but the text.
pub assume_specification[ str::to_lowercase ](text: &str) -> (lower: String)
    ensures
        lower@ == lowercase(text@),
;

/// Resolves an identifier in lower case.
pub fn get_from_id(platform_id: String) -> (platform: Platform)
    ensures
        platform@ == platform_named(platform_id@),
{
    if spelled(&platform_id, "android") {
        Platform::Android
    } else if spelled(&platform_id, "ios") {
        Platform::IOS
    } else if spelled(&platform_id, "linux") {
        Platform::Linux
    } else if spelled(&platform_id, "macos") {
        Platform::MacOS
    } else if spelled(&platform_id, "windows") {
        Platform::Windows
    } else {
        Platform::Unknown(platform_id)
    }
}

/// Writes the name that a platform is shown under.
pub fn name_of(platform: &Platform) -> (name: String)
    ensures
        name@ == platform_name(platform@),
{
    match platform {
        Platform::Android => String::from_str("Android"),
        Platform::IOS => String::from_str("IOS"),
        Platform::Linux => String::from_str("Linux"),
        Platform::MacOS => String::from_str("MacOS"),
        Platform::Windows => String::from_str("Windows"),
        Platform::Unknown(id) => id.clone(),
    }
}

} // verus!
