//! Checks on user-supplied paths and codes.

use vstd::prelude::*;
use vstd::string::*;
use crate::error::Error;

verus! {

/// A path is absolute when it begins at the file-system root `/`.
pub open spec fn is_absolute_path(path: Seq<char>) -> bool {
    path.len() > 0 && path[0] == '/'
}

/// A type code has one to three characters (Unicode scalar values, not bytes).
pub open spec fn is_valid_type_code(code: Seq<char>) -> bool {
    1 <= code.len() <= 3
}

/// An uppercase ASCII letter.
pub open spec fn is_upper_letter(c: char) -> bool {
    'A' <= c <= 'Z'
}

/// Accepts an absolute path; refuses a relative one.
pub fn validate_absolute_path(path: &str) -> (r: Result<(), Error>)
    ensures
        r is Ok <==> is_absolute_path(path@),
        r is Err ==> r->Err_0 == Error::RelativePathNotAllowed,
{
    if path.unicode_len() > 0 && path.get_char(0) == '/' {
        Ok(())
    } else {
        Err(Error::RelativePathNotAllowed)
    }
}

/// Accepts a type code of one to three characters.
pub fn validate_type_code(code: &str) -> (r: Result<(), Error>)
    ensures
        r is Ok <==> is_valid_type_code(code@),
        r matches Err(e) ==> e matches Error::InvalidTypeCode(s) && s@ == code@,
{
    let n = code.unicode_len();
    if n == 0 || n > 3 {
        return Err(Error::InvalidTypeCode(String::from_str(code)));
    }
    Ok(())
}

/// Accepts a department code that is an uppercase letter.
pub fn validate_dept_code(code: char) -> (r: Result<(), Error>)
    ensures
        r is Ok <==> is_upper_letter(code),
        r is Err ==> r->Err_0 == Error::DepartmentNotFound(code),
{
    if 'A' <= code && code <= 'Z' {
        Ok(())
    } else {
        Err(Error::DepartmentNotFound(code))
    }
}

/// Accepts a section code that is an uppercase letter.
pub fn validate_section_code(code: char) -> (r: Result<(), Error>)
    ensures
        r is Ok <==> is_upper_letter(code),
        r is Err ==> r->Err_0 == Error::SectionNotFound(code),
{
    if 'A' <= code && code <= 'Z' {
        Ok(())
    } else {
        Err(Error::SectionNotFound(code))
    }
}

} // verus!
