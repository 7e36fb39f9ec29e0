use back::autentifications::auth::Auth;
use back::driver::timeconvertor::{to_bson_date_time, to_timestamp, BsonDateTime};
use back::users::user::{Role, User};
use back::users::UserLookup;

#[test]
fn user_validate() {
    let test_user: User = User {
        name: "Example".to_owned(),
        password: "StrongPass".to_owned(),
        email: "Some@email.xxx".to_owned(),
        role: Role::Default,
    };

    let another_user: User = User {
        name: "Example".to_owned(),
        password: "StrongPass".to_owned(),
        email: "Some@email.xxx".to_owned(),
        role: Role::Default,
    };

    assert_eq!(true, test_user.validate(&another_user))
}

#[test]
#[should_panic]
fn user_validate_panic() {
    let test_user: User = User {
        name: "Example".to_owned(),
        password: "StrongPass".to_owned(),
        email: "Some@email.xxx".to_owned(),
        role: Role::Default,
    };

    let another_user: User = User {
        name: "Example".to_owned(),
        password: "WRONG_PASSWORD".to_owned(),
        email: "Some@email.xxx".to_owned(),
        role: Role::Default,
    };

    assert_eq!(true, test_user.validate(&another_user))
}

#[test]
fn user_validate_anonimus() {
    let test_user: User = User {
        name: "Example".to_owned(),
        password: "StrongPass".to_owned(),
        email: "Some@email.xxx".to_owned(),
        role: Role::Default,
    };

    let another_user: Auth = Auth {
        name: "Example".to_owned(),
        password: "StrongPass".to_owned(),
    };
    assert_eq!(true, test_user.validate_anonimus(&another_user))
}

#[test]
#[should_panic]
fn user_validate_anonimus_panic() {
    let test_user: User = User {
        name: "Example".to_owned(),
        password: "StrongPass".to_owned(),
        email: "Some@email.xxx".to_owned(),
        role: Role::Default,
    };

    let another_user: Auth = Auth {
        name: "Example".to_owned(),
        password: "WRONG_PASSWORD".to_owned(),
    };
    assert_eq!(true, test_user.validate_anonimus(&another_user))
}

#[test]
fn auth_new() {
    let auth = Auth::new("Example".to_owned(), "StrongPass".to_owned());
    let true_auth = Auth {
        name: "Example".to_owned(),
        password: "StrongPass".to_owned(),
    };
    assert_eq!(true_auth, auth)
}

#[test]
//it panics: without a running store there is no account to confirm the credentials
#[should_panic]
fn auth_validate() {
    let auth = Auth::new("Example".to_owned(), "StrongPass".to_owned());
    let lookup = UserLookup::Failed("no store reachable".to_owned());
    let auth = auth.validate(&lookup);
    assert_eq!(true, auth)
}

#[test]
fn test_to_timestamp() {
    let bson_datetime = BsonDateTime::from_millis(1635685200000);
    let result = to_timestamp(bson_datetime);
    assert!(result.is_ok());
    let timestamp = result.unwrap();
    assert_eq!(timestamp, 1635685200000);
}

#[test]
fn test_to_bson_date_time() {
    let input_timestamp = 1635685200000;
    let result = to_bson_date_time(input_timestamp);
    assert!(result.is_ok());
    let bson_datetime = result.unwrap();
    assert_eq!(bson_datetime.timestamp_millis(), input_timestamp);
}
