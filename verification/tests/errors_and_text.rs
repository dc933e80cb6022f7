use loop_core::decimal::{i32_to_decimal, i64_to_decimal, u64_to_decimal};
use loop_core::errors::{
    BlockError, EmailConfirmError, InternalError, LoopError, NoAccessSubject, UserError,
};

#[test]
fn decimal_renders_exact_values() {
    assert_eq!(u64_to_decimal(0), "0");
    assert_eq!(u64_to_decimal(7), "7");
    assert_eq!(u64_to_decimal(10), "10");
    assert_eq!(u64_to_decimal(12345), "12345");
    assert_eq!(u64_to_decimal(u64::MAX), "18446744073709551615");
    assert_eq!(i64_to_decimal(0), "0");
    assert_eq!(i64_to_decimal(-1), "-1");
    assert_eq!(i64_to_decimal(-987), "-987");
    assert_eq!(i64_to_decimal(i64::MAX), "9223372036854775807");
    assert_eq!(i64_to_decimal(i64::MIN), "-9223372036854775808");
    assert_eq!(i32_to_decimal(i32::MIN), "-2147483648");
    assert_eq!(i32_to_decimal(204), "204");
}

#[test]
fn generic_error_message() {
    assert_eq!(
        LoopError::GenericError.message(),
        "[g] Something unspecified went wrong."
    );
}

#[test]
fn block_error_messages() {
    assert_eq!(
        LoopError::BlockError(BlockError::TypeExist("chart".to_string())).message(),
        "[bte] A block type called 'chart' was not found."
    );
    assert_eq!(
        BlockError::MethodExist("tick".to_string(), "habit".to_string()).message(),
        "[bme] A method called 'tick' was not found for the habit block type."
    );
    assert_eq!(
        BlockError::TypeGenericError("bad shape".to_string()).message(),
        "[btg] bad shape"
    );
    assert_eq!(
        BlockError::InputParse.message(),
        "[bip] The input string could not be parsed properly."
    );
}

#[test]
fn user_error_messages() {
    assert_eq!(
        UserError::NameConflict("ada".to_string()).message(),
        "[unc] Username 'ada' is already in use."
    );
    assert_eq!(
        UserError::NameNonexist("ada".to_string()).message(),
        "[une] A user with the username 'ada' was not found."
    );
    assert_eq!(
        UserError::PasswordTooShort.message(),
        "[ups] The password provided was too short."
    );
    assert_eq!(
        UserError::NameTooShort("al".to_string()).message(),
        "[uns] The username `al` provided was too short."
    );
    assert_eq!(
        UserError::PasswordMatch.message(),
        "[upm] The password provided is not correct."
    );
    assert_eq!(
        UserError::JwtGeneric.message(),
        "[ujg] Something unspecified went wrong with user sessions."
    );
    assert_eq!(
        UserError::NeedAuth.message(),
        "[uar] Authentication headers are required."
    );
    assert_eq!(
        UserError::InsufficientFunds(25).message(),
        "[uci] Insuffecient funds. 25 credits are needed."
    );
}

#[test]
fn no_access_messages() {
    assert_eq!(
        UserError::NoAccess(NoAccessSubject::OtherUserCredits).message(),
        "[uad] Access to another user's credits was denied."
    );
    assert_eq!(
        NoAccessSubject::UpdatePermissions(12).message(),
        "updating block 12's permissions"
    );
    assert_eq!(NoAccessSubject::DeleteBlock(3).message(), "deleting block 3");
    assert_eq!(NoAccessSubject::ViewBlock(-4).message(), "viewing block -4");
    assert_eq!(NoAccessSubject::ViewComment(7).message(), "viewing comment 7");
    assert_eq!(
        NoAccessSubject::NotifBlock(8).message(),
        "setting block 8's notifications"
    );
    assert_eq!(
        NoAccessSubject::EditColor(9).message(),
        "changing block 9's color"
    );
}

#[test]
fn email_confirm_messages() {
    assert_eq!(
        UserError::EmailConfirmError(EmailConfirmError::NotFound("ada".to_string())).message(),
        "[uecn] An email confirmation with the username \"ada\" was not found."
    );
    assert_eq!(
        EmailConfirmError::Invalid.message(),
        "[ueci] The verification code and/or session code were incorrect."
    );
    assert_eq!(
        EmailConfirmError::Expired.message(),
        "[uece] The email confirmation has expired because more than 5 minutes has passed since its creation."
    );
}

#[test]
fn internal_error_messages() {
    assert_eq!(
        LoopError::InternalError(InternalError::DatabaseTimeout).message(),
        "[idt] There was an issue with connecting to the database."
    );
    assert_eq!(
        InternalError::GenericInternalError.message(),
        "[ig] Something unspecified went wrong internally."
    );
    assert_eq!(
        InternalError::EmailError.message(),
        "[img] Something went wrong with Loop's emailing system."
    );
}
