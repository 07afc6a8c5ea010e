//! The package-registry API routes: request bodies, route parameters and
//! the status-code-to-message decisions, all as plain data and pure
//! functions.  The HTTP transport that carries them lives outside the
//! library and hands statuses and bodies in as plain values.

use crate::render::dec_rep;
use crate::render::u32_string;
use vstd::prelude::*;
use vstd::string::StringExecFns;

verus! {

/// Request body format: JSON by default, form data for the publish route.
#[derive(Clone, Debug, PartialEq, Eq, Structural)]
pub enum ContentType {
    JSON,
    FormData,
}

/// The fallback error message for a route that maps no status specially.
pub fn unidentified_error() -> (r: String)
    ensures
        r@ == "Unidentified API error"@,
{
    "Unidentified API error".to_owned()
}

fn unknown_api_error(status: u16) -> (r: String)
    ensures
        r@ == "Unknown API error: "@ + dec_rep(status as nat),
{
    let mut s = "Unknown API error: ".to_owned();
    let n = u32_string(status as u32);
    s.append(n.as_str());
    s
}

/// Request body for the package-fetch route.
#[derive(Debug)]
pub struct Fetch {
    pub author: String,
    pub package_name: String,
    pub version: Option<String>,
}

impl Fetch {
    /// Whether the route sends bearer authentication.
    pub fn auth(&self) -> (r: bool)
        ensures
            r,
    {
        true
    }

    /// The request body format.
    pub fn content_type(&self) -> (r: ContentType)
        ensures
            r == ContentType::JSON,
    {
        ContentType::JSON
    }

    /// The HTTP method.
    pub fn method(&self) -> (r: &'static str)
        ensures
            r@ == "POST"@,
    {
        "POST"
    }

    /// The URL path, without the leading slash.
    pub fn path(&self) -> (r: &'static str)
        ensures
            r@ == "api/package/fetch"@,
    {
        "api/package/fetch"
    }

    /// Whether a response status means success for this route.
    pub fn accepts(&self, status: u16) -> (r: bool)
        ensures
            r == (status == 200),
    {
        status == 200
    }

    /// The error message for a failing status code.
    pub fn status_to_err(&self, status: u16) -> (r: String)
        ensures
            status == 400 ==> r@ == "Package is not found - check author and/or package name"@,
            status == 404 ==> r@ == "Package not found"@,
            status != 400 && status != 404 ==> r@ == "Unknown API error: "@ + dec_rep(
                status as nat,
            ),
    {
        if status == 400 {
            "Package is not found - check author and/or package name".to_owned()
        } else if status == 404 {
            "Package not found".to_owned()
        } else {
            unknown_api_error(status)
        }
    }
}

/// Request body for the login route.
pub struct Login {
    pub email_username: String,
    pub password: String,
}

impl Login {
    /// Whether the route sends bearer authentication.
    pub fn auth(&self) -> (r: bool)
        ensures
            !r,
    {
        false
    }

    /// The request body format.
    pub fn content_type(&self) -> (r: ContentType)
        ensures
            r == ContentType::JSON,
    {
        ContentType::JSON
    }

    /// The HTTP method.
    pub fn method(&self) -> (r: &'static str)
        ensures
            r@ == "POST"@,
    {
        "POST"
    }

    /// The URL path, without the leading slash.
    pub fn path(&self) -> (r: &'static str)
        ensures
            r@ == "api/account/authenticate"@,
    {
        "api/account/authenticate"
    }

    /// Whether a response status means success for this route.
    pub fn accepts(&self, status: u16) -> (r: bool)
        ensures
            r == (status == 200),
    {
        status == 200
    }

    /// The error message for a failing status code.
    pub fn status_to_err(&self, status: u16) -> (r: String)
        ensures
            status == 400 ==> r@
                == "This username is not yet registered or the password is incorrect"@,
            status == 404 ==> r@ == "Incorrect password"@,
            status != 400 && status != 404 ==> r@ == "Unknown API error: "@ + dec_rep(
                status as nat,
            ),
    {
        if status == 400 {
            "This username is not yet registered or the password is incorrect".to_owned()
        } else if status == 404 {
            "Incorrect password".to_owned()
        } else {
            unknown_api_error(status)
        }
    }
}

/// Request body for the package-publish route.  The transport reads the
/// named file itself; the library only carries its path as text.
pub struct Publish {
    pub name: String,
    pub remote: String,
    pub version: String,
    pub file: String,
}

/// Response body of a successful publish.
pub struct PublishResponse {
    pub package_id: String,
}

impl Publish {
    /// Whether the route sends bearer authentication.
    pub fn auth(&self) -> (r: bool)
        ensures
            r,
    {
        true
    }

    /// The request body format: this route uses multipart form data.
    pub fn content_type(&self) -> (r: ContentType)
        ensures
            r == ContentType::FormData,
    {
        ContentType::FormData
    }

    /// The HTTP method.
    pub fn method(&self) -> (r: &'static str)
        ensures
            r@ == "POST"@,
    {
        "POST"
    }

    /// The URL path, without the leading slash.
    pub fn path(&self) -> (r: &'static str)
        ensures
            r@ == "api/package/publish"@,
    {
        "api/package/publish"
    }

    /// The outcome decision for a publish response: a `200` returns the
    /// package id from the response body; any other status maps to its
    /// error message, where a `400` carries the server's own message.
    pub fn process(&self, status: u16, package_id: String, server_message: String) -> (r: Result<
        String,
        String,
    >)
        ensures
            status == 200 ==> r == Result::<String, String>::Ok(package_id),
            status != 200 ==> r is Err,
            status == 400 ==> r == Result::<String, String>::Err(server_message),
            status == 401 ==> (r->Err_0)@
                == "You are not logged in. Please use `leo login` to login"@,
            status == 424 ==> (r->Err_0)@ == "This package version is already published"@,
            status == 500 ==> (r->Err_0)@
                == "Server error, please contact us at https://github.com/AleoHQ/leo/issues"@,
            status != 200 && status != 400 && status != 401 && status != 424 && status != 500
                ==> (r->Err_0)@ == "Unknown status code"@,
    {
        if status == 200 {
            Ok(package_id)
        } else if status == 400 {
            Err(server_message)
        } else if status == 401 {
            Err("You are not logged in. Please use `leo login` to login".to_owned())
        } else if status == 424 {
            Err("This package version is already published".to_owned())
        } else if status == 500 {
            Err("Server error, please contact us at https://github.com/AleoHQ/leo/issues".to_owned())
        } else {
            Err("Unknown status code".to_owned())
        }
    }
}

/// Request body for the profile route; used to check whether the caller is
/// logged in.
pub struct Profile {}

/// Response body of the profile route.
pub struct ProfileResponse {
    pub username: String,
}

impl Profile {
    /// Whether the route sends bearer authentication.
    pub fn auth(&self) -> (r: bool)
        ensures
            r,
    {
        true
    }

    /// The request body format.
    pub fn content_type(&self) -> (r: ContentType)
        ensures
            r == ContentType::JSON,
    {
        ContentType::JSON
    }

    /// The HTTP method.
    pub fn method(&self) -> (r: &'static str)
        ensures
            r@ == "GET"@,
    {
        "GET"
    }

    /// The URL path, without the leading slash.
    pub fn path(&self) -> (r: &'static str)
        ensures
            r@ == "api/account/my_profile"@,
    {
        "api/account/my_profile"
    }

    /// The outcome decision for a profile response: the username on a
    /// `200`, `None` on any other status (treated as not logged in).
    pub fn process(&self, status: u16, username: String) -> (r: Option<String>)
        ensures
            status == 200 ==> r == Option::Some(username),
            status != 200 ==> r is None,
    {
        if status == 200 {
            Some(username)
        } else {
            None
        }
    }
}

} // verus!
