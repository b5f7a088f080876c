//! Where the resized mesh is written: a file name made of the input's file
//! name and the target measurement, in the input's directory.

use vstd::prelude::*;
use vstd::string::*;

verus! {

/// The output file name: the input's file name, `_size-`, the target as
/// text, and `.obj`.
pub open spec fn output_name(file_name: Seq<char>, target_text: Seq<char>) -> Seq<char> {
    file_name + "_size-"@ + target_text + ".obj"@
}

/// The output directory: the input's parent directory, or `.` without one.
pub open spec fn output_dir(parent: Option<Seq<char>>) -> Seq<char> {
    match parent {
        Some(dir) => dir,
        None => "."@,
    }
}

/// Builds the output file name from the input's file name and the target
/// measurement written with two decimal places.
pub fn output_file_name(file_name: &str, target_text: &str) -> (name: String)
    ensures
        name@ == output_name(file_name@, target_text@),
{
    let mut name = String::from_str(file_name);
    name.append("_size-");
    name.append(target_text);
    name.append(".obj");
    name
}

/// Picks the directory to write into.
pub fn output_directory(parent: Option<&str>) -> (dir: String)
    ensures
        dir@ == output_dir(
            match parent {
                Some(p) => Some(p@),
                None => None,
            },
        ),
{
    match parent {
        Some(p) => String::from_str(p),
        None => String::from_str("."),
    }
}

} // verus!
