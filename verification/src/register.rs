use vstd::prelude::*;

verus! {

/// Registration form the administration front end submits for a new teacher.
#[derive(Debug)]
pub struct TeacherRegisterForm {
    pub name: String,
    pub picture_url: String,
    pub profile: String,
}

/// A teacher row as the front end reads it back from the service.
#[derive(Debug)]
pub struct TeacherResponse {
    pub id: i32,
    pub name: String,
    pub picture_url: String,
    pub profile: String,
}

/// The one gate the registration flow applies before posting a new teacher:
/// the reserved name is rejected as already existing.
pub fn registration_allowed(form: &TeacherRegisterForm) -> (r: bool)
    ensures
        r == (form.name@ != "Dave"@),
{
    let reserved: String = "Dave".to_owned();
    let eq = form.name == reserved;
    !eq
}

} // verus!
