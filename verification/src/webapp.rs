//! The server-rendered registration page's own logic: the form DTO, the
//! response DTO it reads back from the service, and the decision taken
//! when a registration form is submitted. Template rendering and the
//! HTTP client live outside this crate.

use vstd::prelude::*;
use vstd::string::StringExecFns;

use crate::models::CreateTeacher;
use crate::text::{i32_to_decimal, spec_decimal_int};

verus! {

/// Where the page finds the service it talks to.
#[allow(non_snake_case)]
pub struct Config {
    baseUrl: String,
}

impl View for Config {
    type V = Seq<char>;

    /// A configuration is characterized by the address it holds.
    closed spec fn view(&self) -> Seq<char> {
        self.baseUrl@
    }
}

#[allow(non_snake_case)]
impl Config {
    /// A configuration pointing at the given service address.
    pub fn new(baseUrl: String) -> (c: Config)
        ensures
            c@ == baseUrl@,
    {
        Config { baseUrl }
    }

    /// The service address registrations are posted to.
    pub fn base_url(&self) -> (r: &String)
        ensures
            r@ == self@,
    {
        &self.baseUrl
    }
}

/// What the registration form submits.
#[derive(Debug)]
pub struct TeacherRegisterForm {
    pub name: String,
    pub image_url: String,
    pub profile: String,
}

/// What the service replies with after a registration.
#[derive(Debug)]
pub struct TeacherResponse {
    pub id: i32,
    pub name: String,
    pub picture_url: String,
    pub profile: String,
}

/// The registration decision: the one reserved name is turned away with
/// the message shown back on the form, and any other submission becomes
/// the teacher-creation payload, the form's image field feeding the
/// picture column.
pub fn handle_register(params: &TeacherRegisterForm) -> (r: Result<CreateTeacher, String>)
    ensures
        params.name@ == "Dave"@ ==> (r matches Err(m) && m@ == "Dave is already exists!"@),
        params.name@ != "Dave"@ ==> (r matches Ok(t) && t.name == params.name && t.picture_url
            == params.image_url && t.profile == params.profile),
{
    if params.name == "Dave".to_owned() {
        Err("Dave is already exists!".to_owned())
    } else {
        Ok(
            CreateTeacher {
                name: params.name.clone(),
                picture_url: params.image_url.clone(),
                profile: params.profile.clone(),
            },
        )
    }
}

/// The congratulation line shown once the service has assigned an id.
pub fn registration_reply(response: &TeacherResponse) -> (r: String)
    ensures
        r@ == "Congratulation! Your id is: "@ + spec_decimal_int(response.id as int) + "."@,
{
    let mut s = "Congratulation! Your id is: ".to_owned();
    s.append(i32_to_decimal(response.id).as_str());
    s.append(".");
    s
}

} // verus!
