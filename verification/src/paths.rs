//! Where each artifact of an RFC lives, relative to the working directory.

use vstd::prelude::*;
use vstd::string::StringExecFns;
use crate::text::{decimal, push_decimal};

verus! {

/// The directory of the explanations.
pub const EXPLAIN_DIR: &'static str = "rfc/explain";

/// The directory of the implementation guides.
pub const IMPLEMENT_DIR: &'static str = "rfc/implement";

/// The directory of the animation scripts.
pub const SCRIPT_DIR: &'static str = "rfc/animations";

/// The path of the explanation of RFC `rfc_num`.
pub open spec fn explain_path_text(rfc_num: u32) -> Seq<char> {
    EXPLAIN_DIR@ + "/"@ + decimal(rfc_num as nat) + ".md"@
}

/// The path of the implementation guide of RFC `rfc_num`.
pub open spec fn implement_path_text(rfc_num: u32) -> Seq<char> {
    IMPLEMENT_DIR@ + "/"@ + decimal(rfc_num as nat) + ".md"@
}

/// The path of the animation script of RFC `rfc_num`.
pub open spec fn script_path_text(rfc_num: u32) -> Seq<char> {
    SCRIPT_DIR@ + "/rfc_"@ + decimal(rfc_num as nat) + ".py"@
}

/// The directory in which the renderer leaves the video of RFC `rfc_num`.
pub open spec fn video_dir_text(rfc_num: u32) -> Seq<char> {
    "media/videos/rfc_"@ + decimal(rfc_num as nat) + "/480p15"@
}

/// The path of the explanation of RFC `rfc_num`.
pub fn explain_path(rfc_num: u32) -> (path: String)
    ensures
        path@ == explain_path_text(rfc_num),
{
    let mut path = String::from_str(EXPLAIN_DIR);
    path.append("/");
    push_decimal(&mut path, rfc_num);
    path.append(".md");
    path
}

/// The path of the implementation guide of RFC `rfc_num`.
pub fn implement_path(rfc_num: u32) -> (path: String)
    ensures
        path@ == implement_path_text(rfc_num),
{
    let mut path = String::from_str(IMPLEMENT_DIR);
    path.append("/");
    push_decimal(&mut path, rfc_num);
    path.append(".md");
    path
}

/// The path of the animation script of RFC `rfc_num`.
pub fn script_path(rfc_num: u32) -> (path: String)
    ensures
        path@ == script_path_text(rfc_num),
{
    let mut path = String::from_str(SCRIPT_DIR);
    path.append("/rfc_");
    push_decimal(&mut path, rfc_num);
    path.append(".py");
    path
}

/// The directory in which the renderer leaves the video of RFC `rfc_num`.
pub fn video_dir(rfc_num: u32) -> (path: String)
    ensures
        path@ == video_dir_text(rfc_num),
{
    let mut path = String::from_str("media/videos/rfc_");
    push_decimal(&mut path, rfc_num);
    path.append("/480p15");
    path
}

} // verus!
