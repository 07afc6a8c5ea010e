use leo::api::ContentType;
use leo::api::Fetch;
use leo::api::Login;
use leo::api::Profile;
use leo::api::Publish;
use leo::api::unidentified_error;

fn fetch() -> Fetch {
    Fetch {
        author: "aleo".to_string(),
        package_name: "example".to_string(),
        version: None,
    }
}

fn login() -> Login {
    Login {
        email_username: "user".to_string(),
        password: "pw".to_string(),
    }
}

fn publish() -> Publish {
    Publish {
        name: "example".to_string(),
        remote: "aleo".to_string(),
        version: "0.1.0".to_string(),
        file: "example.zip".to_string(),
    }
}

#[test]
fn route_parameters_match() {
    let f = fetch();
    assert!(f.auth());
    assert_eq!(f.method(), "POST");
    assert_eq!(f.path(), "api/package/fetch");
    assert_eq!(f.content_type(), ContentType::JSON);

    let l = login();
    assert!(!l.auth());
    assert_eq!(l.method(), "POST");
    assert_eq!(l.path(), "api/account/authenticate");
    assert_eq!(l.content_type(), ContentType::JSON);

    let p = publish();
    assert!(p.auth());
    assert_eq!(p.method(), "POST");
    assert_eq!(p.path(), "api/package/publish");
    assert_eq!(p.content_type(), ContentType::FormData);

    let pr = Profile {};
    assert!(pr.auth());
    assert_eq!(pr.method(), "GET");
    assert_eq!(pr.path(), "api/account/my_profile");
    assert_eq!(pr.content_type(), ContentType::JSON);
}

#[test]
fn fetch_status_messages() {
    let f = fetch();
    assert!(f.accepts(200));
    assert!(!f.accepts(404));
    assert_eq!(
        f.status_to_err(400),
        "Package is not found - check author and/or package name".to_string()
    );
    assert_eq!(f.status_to_err(404), "Package not found".to_string());
    assert_eq!(f.status_to_err(500), "Unknown API error: 500".to_string());
}

#[test]
fn login_status_messages() {
    let l = login();
    assert!(l.accepts(200));
    assert_eq!(
        l.status_to_err(400),
        "This username is not yet registered or the password is incorrect".to_string()
    );
    assert_eq!(l.status_to_err(404), "Incorrect password".to_string());
    assert_eq!(l.status_to_err(418), "Unknown API error: 418".to_string());
}

#[test]
fn publish_outcomes() {
    let p = publish();
    let ok = p.process(200, "pkg-1".to_string(), String::new());
    assert_eq!(ok.unwrap(), "pkg-1".to_string());
    let bad = p.process(400, String::new(), "bad manifest".to_string());
    assert_eq!(bad.unwrap_err(), "bad manifest".to_string());
    assert_eq!(
        p.process(401, String::new(), String::new()).unwrap_err(),
        "You are not logged in. Please use `leo login` to login".to_string()
    );
    assert_eq!(
        p.process(424, String::new(), String::new()).unwrap_err(),
        "This package version is already published".to_string()
    );
    assert_eq!(
        p.process(500, String::new(), String::new()).unwrap_err(),
        "Server error, please contact us at https://github.com/AleoHQ/leo/issues".to_string()
    );
    assert_eq!(
        p.process(302, String::new(), String::new()).unwrap_err(),
        "Unknown status code".to_string()
    );
}

#[test]
fn profile_outcomes() {
    let pr = Profile {};
    assert_eq!(pr.process(200, "alice".to_string()), Some("alice".to_string()));
    assert_eq!(pr.process(401, "alice".to_string()), None);
}

#[test]
fn unidentified_error_message() {
    assert_eq!(unidentified_error(), "Unidentified API error".to_string());
}
