//! Naming the files of screenshots.

use vstd::prelude::*;
use vstd::string::*;
use crate::config::Config;
use crate::utils::image::ImageFormat;

verus! {

/// Screenshots: taking and storing pictures of the screen.
pub struct Screenshot;

/// The handle of a window, as the platform knows it.
#[derive(Debug, Clone, Copy, PartialEq, Eq, Structural)]
pub enum WindowHandle {
    /// A window handle of Windows.
    Windows(isize),
    /// A window number of macOS.
    MacOS(u32),
    /// A window identifier of X11.
    X11(u64),
}

/// The names of the files that hold the result of a comparison.
#[derive(Debug)]
pub struct ComparisonFiles {
    /// The current screenshot.
    pub current: String,
    /// The reference image.
    pub reference: String,
    /// The picture of the differences.
    pub diff: String,
}

/// The file extension of an image format.
pub open spec fn spec_format_extension(format: ImageFormat) -> Seq<char> {
    match format {
        ImageFormat::PNG => "png"@,
        ImageFormat::JPEG => "jpg"@,
        ImageFormat::BMP => "bmp"@,
        ImageFormat::TIFF => "tiff"@,
        ImageFormat::WEBP => "webp"@,
    }
}

/// The name of a file of the given kind: the kind, the label and the
/// timestamp, joined by underscores, and the extension after a dot.
pub open spec fn spec_file_name(
    kind: Seq<char>,
    label: Seq<char>,
    timestamp: Seq<char>,
    extension: Seq<char>,
) -> Seq<char> {
    kind + "_"@ + label + "_"@ + timestamp + "."@ + extension
}

/// The file extension of an image format.
pub fn format_extension(format: ImageFormat) -> (extension: &'static str)
    ensures
        extension@ == spec_format_extension(format),
{
    match format {
        ImageFormat::PNG => "png",
        ImageFormat::JPEG => "jpg",
        ImageFormat::BMP => "bmp",
        ImageFormat::TIFF => "tiff",
        ImageFormat::WEBP => "webp",
    }
}

/// `chrono::Utc::now` and `DateTime::format`: the present moment in UTC,
/// written as year, month, day, an underscore, hour, minute, second, an
/// underscore and the milliseconds. The text depends on the clock, so
/// nothing is promised of it.
#[verifier::external_body]
fn current_timestamp() -> (timestamp: String) {
    chrono::Utc::now().format("%Y%m%d_%H%M%S_%3f").to_string()
}

fn file_name(kind: &str, label: &str, timestamp: &str, extension: &str) -> (name: String)
    ensures
        name@ == spec_file_name(kind@, label@, timestamp@, extension@),
{
    String::from_str(kind).concat("_").concat(label).concat("_").concat(timestamp).concat(
        ".",
    ).concat(extension)
}

impl Screenshot {
    /// The name of the file for a screenshot taken at the moment that
    /// `timestamp` writes: the prefix, the timestamp and the extension of
    /// the format.
    pub fn file_name_at(prefix: &str, timestamp: &str, format: ImageFormat) -> (name: String)
        ensures
            name@ == prefix@ + "_"@ + timestamp@ + "."@ + spec_format_extension(format),
    {
        String::from_str(prefix).concat("_").concat(timestamp).concat(".").concat(
            format_extension(format),
        )
    }

    /// The name of the file for a screenshot taken now.
    pub fn file_name_now(prefix: &str, format: ImageFormat) -> (name: String)
        ensures
            exists|timestamp: Seq<char>|
                name@ == prefix@ + "_"@ + timestamp + "."@ + spec_format_extension(format),
    {
        let timestamp = current_timestamp();
        Self::file_name_at(prefix, timestamp.as_str(), format)
    }

    /// The name of the file for the screenshot of a failed test, taken now,
    /// in the format of the configuration.
    pub fn failure_file_name_now(config: &Config, test_name: &str) -> (name: String)
        ensures
            exists|timestamp: Seq<char>|
                name@ == spec_file_name(
                    "failure"@,
                    test_name@,
                    timestamp,
                    spec_format_extension(
                        crate::utils::image::format_of(config.screenshot.format),
                    ),
                ),
    {
        let timestamp = current_timestamp();
        Self::failure_file_name_at(config, test_name, timestamp.as_str())
    }

    /// Whether a failure takes a screenshot by itself.
    pub fn saves_on_failure(config: &Config) -> (saves: bool)
        ensures
            saves == config.screenshot.auto_screenshot_on_failure,
    {
        config.screenshot.auto_screenshot_on_failure
    }

    /// The name of the file for the screenshot of a failed test, taken at
    /// the moment that `timestamp` writes, in the format of the
    /// configuration.
    pub fn failure_file_name_at(config: &Config, test_name: &str, timestamp: &str) -> (name:
        String)
        ensures
            name@ == spec_file_name(
                "failure"@,
                test_name@,
                timestamp@,
                spec_format_extension(crate::utils::image::format_of(config.screenshot.format)),
            ),
    {
        let format = ImageFormat::from(config.screenshot.format);
        file_name("failure", test_name, timestamp, format_extension(format))
    }
}

impl ComparisonFiles {
    /// The names of the files for the comparison of a test made now.
    pub fn named_now(test_name: &str) -> (files: Self)
        ensures
            exists|timestamp: Seq<char>|
                {
                    &&& files.current@ == spec_file_name(
                        "current"@,
                        test_name@,
                        timestamp,
                        "png"@,
                    )
                    &&& files.reference@ == spec_file_name(
                        "reference"@,
                        test_name@,
                        timestamp,
                        "png"@,
                    )
                    &&& files.diff@ == spec_file_name("diff"@, test_name@, timestamp, "png"@)
                },
    {
        let timestamp = current_timestamp();
        Self::named_at(test_name, timestamp.as_str())
    }

    /// The names of the files for the comparison of a test made at the
    /// moment that `timestamp` writes: `current`, `reference` and `diff`,
    /// each with the name of the test and the timestamp, as PNG files.
    pub fn named_at(test_name: &str, timestamp: &str) -> (files: Self)
        ensures
            files.current@ == spec_file_name("current"@, test_name@, timestamp@, "png"@),
            files.reference@ == spec_file_name("reference"@, test_name@, timestamp@, "png"@),
            files.diff@ == spec_file_name("diff"@, test_name@, timestamp@, "png"@),
    {
        ComparisonFiles {
            current: file_name("current", test_name, timestamp, "png"),
            reference: file_name("reference", test_name, timestamp, "png"),
            diff: file_name("diff", test_name, timestamp, "png"),
        }
    }
}

} // verus!
