//! The launch agent that starts the sorter again at login.

use vstd::prelude::*;
use vstd::string::StringExecFns;
use crate::paths::{join, join_path};

verus! {

/// The name under which the sorter is registered, by default.
pub const SERVICE_ID: &'static str = "homebrew.mxcl.file_sorter";

/// The text of the launch agent descriptor that runs `binary_path` on
/// `target_path` at load, registered as `service_id`.
pub open spec fn descriptor_text(
    service_id: Seq<char>,
    binary_path: Seq<char>,
    target_path: Seq<char>,
) -> Seq<char> {
    "<?xml version=\"1.0\" encoding=\"UTF-8\"?>\n<!DOCTYPE plist PUBLIC \"-//Apple//DTD PLIST 1.0//EN\" \"http://www.apple.com/DTDs/PropertyList-1.0.dtd\">\n<plist version=\"1.0\">\n<dict>\n    <key>Label</key>\n    <string>"@
        + service_id
        + "</string>\n    <key>ProgramArguments</key>\n    <array>\n        <string>"@
        + binary_path
        + "</string>\n        <string>path</string>\n        <string>"@
        + target_path
        + "</string>\n    </array>\n    <key>RunAtLoad</key>\n    <true/>\n</dict>\n</plist>\n"@
}

/// The launch agent descriptor that runs `binary_path` on `target_path`.
pub fn service_descriptor(service_id: &str, binary_path: &str, target_path: &str) -> (r: String)
    ensures
        r@ == descriptor_text(service_id@, binary_path@, target_path@),
{
    let head = String::from_str(
        "<?xml version=\"1.0\" encoding=\"UTF-8\"?>\n<!DOCTYPE plist PUBLIC \"-//Apple//DTD PLIST 1.0//EN\" \"http://www.apple.com/DTDs/PropertyList-1.0.dtd\">\n<plist version=\"1.0\">\n<dict>\n    <key>Label</key>\n    <string>",
    );
    head.concat(service_id).concat(
        "</string>\n    <key>ProgramArguments</key>\n    <array>\n        <string>",
    ).concat(binary_path).concat("</string>\n        <string>path</string>\n        <string>").concat(
        target_path,
    ).concat("</string>\n    </array>\n    <key>RunAtLoad</key>\n    <true/>\n</dict>\n</plist>\n")
}

/// Where the descriptor of `service_id` stands in the directory `agents_dir`.
pub fn descriptor_path(agents_dir: &str, service_id: &str) -> (r: String)
    ensures
        r@ == join(agents_dir@, service_id@ + ".plist"@),
{
    let file = String::from_str(service_id).concat(".plist");
    join_path(agents_dir, file.as_str())
}

} // verus!
