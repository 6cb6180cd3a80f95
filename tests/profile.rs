use userauth::auth::{login_at, register, signup_with_cost, LoginRequest, SignupRequest, UserRecord};
use userauth::profile::{
    createprofilefn, getallprofile, update_outcome, updateprofile, ProfileCreate, ProfileError,
    ProfileUpdate, UpdateOutcome,
};
use userauth::validate::ValidationError;

fn update(fullname: Option<&str>, phonenumber: Option<&str>, address: Option<&str>, bio: Option<&str>, userid: &str) -> ProfileUpdate {
    ProfileUpdate {
        fullname: fullname.map(|s| s.to_string()),
        phonenumber: phonenumber.map(|s| s.to_string()),
        address: address.map(|s| s.to_string()),
        bio: bio.map(|s| s.to_string()),
        userid: userid.to_string(),
    }
}

fn profile(fullname: &str, phonenumber: &str) -> ProfileCreate {
    ProfileCreate {
        fullname: fullname.to_string(),
        phonenumber: phonenumber.to_string(),
        address: "1 Main St".to_string(),
        bio: "hi".to_string(),
        userid: "u1".to_string(),
    }
}

#[test]
fn create_profile_statement() {
    let st = createprofilefn(&profile("Jane Doe", "5551234567")).expect("valid");
    assert_eq!(
        st.text,
        "INSERT INTO userprofile (fullname, phonenumber, address, bio, userid) VALUES ($1, $2, $3, $4, $5)"
    );
    assert_eq!(st.params, vec!["Jane Doe", "5551234567", "1 Main St", "hi", "u1"]);
}

#[test]
fn create_profile_validation() {
    assert!(matches!(
        createprofilefn(&profile("Jane", "5551234567")),
        Err(ProfileError::Validation(ValidationError::FullnameTooShort))
    ));
    assert!(matches!(
        createprofilefn(&profile("Jane Doe", "123")),
        Err(ProfileError::Validation(ValidationError::InvalidPhoneNumber))
    ));
}

#[test]
fn list_profiles_statement() {
    let st = getallprofile();
    assert_eq!(st.text, "SELECT fullname, phonenumber, address, bio, userid FROM userprofile");
    assert!(st.params.is_empty());
}

#[test]
fn update_bio_only() {
    let st = updateprofile(&update(None, None, None, Some("updated"), "u1")).expect("valid");
    assert_eq!(st.text, "UPDATE userprofile SET bio = $1 WHERE userid = $2");
    assert_eq!(st.params, vec!["updated", "u1"]);
}

#[test]
fn update_all_fields_in_order() {
    let st = updateprofile(&update(Some("Jane Doe"), Some("5551234567"), Some("1 Main St"), Some("hi"), "u1")).unwrap();
    assert_eq!(
        st.text,
        "UPDATE userprofile SET fullname = $1, phonenumber = $2, address = $3, bio = $4 WHERE userid = $5"
    );
    assert_eq!(st.params, vec!["Jane Doe", "5551234567", "1 Main St", "hi", "u1"]);
}

#[test]
fn update_two_fields_no_trailing_separator() {
    let st = updateprofile(&update(None, Some("5551234567"), Some("2 Elm St"), None, "u9")).unwrap();
    assert_eq!(st.text, "UPDATE userprofile SET phonenumber = $1, address = $2 WHERE userid = $3");
    assert_eq!(st.params, vec!["5551234567", "2 Elm St", "u9"]);
}

#[test]
fn update_values_never_in_text() {
    let st = updateprofile(&update(Some("x'; DROP TABLE users; --"), None, None, None, "u1")).unwrap();
    assert_eq!(st.text, "UPDATE userprofile SET fullname = $1 WHERE userid = $2");
}

#[test]
fn update_without_fields_refused() {
    assert!(matches!(updateprofile(&update(None, None, None, None, "u1")), Err(ProfileError::NoFieldsProvided)));
}

#[test]
fn update_without_userid_refused() {
    assert!(matches!(updateprofile(&update(None, None, None, Some("b"), "")), Err(ProfileError::MissingUserId)));
    assert!(matches!(updateprofile(&update(None, None, None, None, "")), Err(ProfileError::MissingUserId)));
}

#[test]
fn update_outcomes() {
    assert_eq!(update_outcome(0), UpdateOutcome::NotFound);
    assert_eq!(update_outcome(1), UpdateOutcome::Updated(1));
    assert_eq!(update_outcome(3), UpdateOutcome::Updated(3));
}

#[test]
fn end_to_end_jane() {
    let req = SignupRequest {
        name: "Jane Doe".to_string(),
        email: "jane@example.com".to_string(),
        password: "longpass1".to_string(),
        confirm_password: "longpass1".to_string(),
    };
    let user = register(signup_with_cost(&req, 4).expect("signup"), 0).expect("email free");
    let record = UserRecord { id: "jane-id".to_string(), email: user.email.clone(), password_hash: user.password_hash.clone() };
    let login = LoginRequest { email: "jane@example.com".to_string(), password: "longpass1".to_string() };
    let session = login_at(&login, Some(record), "secret", 1_700_000_000).expect("login");
    assert!(!session.token.is_empty());
    let created = ProfileCreate {
        fullname: "Jane Doe".to_string(),
        phonenumber: "5551234567".to_string(),
        address: "1 Main St".to_string(),
        bio: "hi".to_string(),
        userid: session.user_id.clone(),
    };
    assert!(createprofilefn(&created).is_ok());
    let st = updateprofile(&update(None, None, None, Some("updated"), &session.user_id)).expect("update");
    assert_eq!(st.params, vec!["updated", "jane-id"]);
    assert_eq!(update_outcome(1), UpdateOutcome::Updated(1));
}
