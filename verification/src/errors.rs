//! The error taxonomy: every operation of the core returns a value or
//! exactly one tagged error, and each error renders to one user-facing
//! message line.

use vstd::prelude::*;

use crate::decimal::{i32_to_decimal, i64_to_decimal, spec_decimal_signed};

verus! {

/// Top-level error of the platform.
#[derive(Debug, Clone)]
pub enum LoopError {
    GenericError,
    InternalError(InternalError),
    UserError(UserError),
    BlockError(BlockError),
}

/// Errors of block resolution and block operations.
#[derive(Debug, Clone)]
pub enum BlockError {
    /// The type tag did not resolve to a known variant.
    TypeExist(String),
    TypeGenericError(String),
    InputParse,
    /// A method of the given name does not exist for the resolved block
    /// type. (Name, Type)
    MethodExist(String, String),
}

/// Errors of user lookup, authentication and funds.
#[derive(Debug, Clone)]
pub enum UserError {
    PasswordTooShort,
    PasswordMatch,
    EmailConfirmError(EmailConfirmError),
    NameNonexist(String),
    NameConflict(String),
    NameTooShort(String),
    JwtGeneric,
    NoAccess(NoAccessSubject),
    NeedAuth,
    InsufficientFunds(i32),
}

/// What a denied access was about.
#[derive(Debug, Clone)]
pub enum NoAccessSubject {
    DeleteBlock(i64),
    EditColor(i64),
    NotifBlock(i64),
    OtherUserCredits,
    UpdatePermissions(i64),
    ViewBlock(i64),
    ViewComment(i64),
}

/// Errors of the email confirmation flow.
#[derive(Debug, Clone)]
pub enum EmailConfirmError {
    NotFound(String),
    Expired,
    Invalid,
}

/// Failures of the platform itself rather than of a request.
#[derive(Debug, Clone)]
pub enum InternalError {
    DatabaseTimeout,
    GenericInternalError,
    EmailError,
}

/// Mathematical image of a [`LoopError`].
pub ghost enum LoopErrorView {
    GenericError,
    InternalError(InternalError),
    UserError(UserErrorView),
    BlockError(BlockErrorView),
}

/// Mathematical image of a [`BlockError`].
pub ghost enum BlockErrorView {
    TypeExist(Seq<char>),
    TypeGenericError(Seq<char>),
    InputParse,
    MethodExist(Seq<char>, Seq<char>),
}

/// Mathematical image of a [`UserError`].
pub ghost enum UserErrorView {
    PasswordTooShort,
    PasswordMatch,
    EmailConfirmError(EmailConfirmErrorView),
    NameNonexist(Seq<char>),
    NameConflict(Seq<char>),
    NameTooShort(Seq<char>),
    JwtGeneric,
    NoAccess(NoAccessSubject),
    NeedAuth,
    InsufficientFunds(i32),
}

/// Mathematical image of an [`EmailConfirmError`].
pub ghost enum EmailConfirmErrorView {
    NotFound(Seq<char>),
    Expired,
    Invalid,
}

impl View for BlockError {
    type V = BlockErrorView;

    open spec fn view(&self) -> BlockErrorView {
        match self {
            BlockError::TypeExist(name) => BlockErrorView::TypeExist(name@),
            BlockError::TypeGenericError(err) => BlockErrorView::TypeGenericError(err@),
            BlockError::InputParse => BlockErrorView::InputParse,
            BlockError::MethodExist(name, block_type) => BlockErrorView::MethodExist(
                name@,
                block_type@,
            ),
        }
    }
}

impl View for EmailConfirmError {
    type V = EmailConfirmErrorView;

    open spec fn view(&self) -> EmailConfirmErrorView {
        match self {
            EmailConfirmError::NotFound(name) => EmailConfirmErrorView::NotFound(name@),
            EmailConfirmError::Expired => EmailConfirmErrorView::Expired,
            EmailConfirmError::Invalid => EmailConfirmErrorView::Invalid,
        }
    }
}

impl View for UserError {
    type V = UserErrorView;

    open spec fn view(&self) -> UserErrorView {
        match self {
            UserError::PasswordTooShort => UserErrorView::PasswordTooShort,
            UserError::PasswordMatch => UserErrorView::PasswordMatch,
            UserError::EmailConfirmError(err) => UserErrorView::EmailConfirmError(err@),
            UserError::NameNonexist(name) => UserErrorView::NameNonexist(name@),
            UserError::NameConflict(name) => UserErrorView::NameConflict(name@),
            UserError::NameTooShort(name) => UserErrorView::NameTooShort(name@),
            UserError::JwtGeneric => UserErrorView::JwtGeneric,
            UserError::NoAccess(scope) => UserErrorView::NoAccess(*scope),
            UserError::NeedAuth => UserErrorView::NeedAuth,
            UserError::InsufficientFunds(needed) => UserErrorView::InsufficientFunds(*needed),
        }
    }
}

impl View for LoopError {
    type V = LoopErrorView;

    open spec fn view(&self) -> LoopErrorView {
        match self {
            LoopError::GenericError => LoopErrorView::GenericError,
            LoopError::InternalError(err) => LoopErrorView::InternalError(*err),
            LoopError::UserError(err) => LoopErrorView::UserError(err@),
            LoopError::BlockError(err) => LoopErrorView::BlockError(err@),
        }
    }
}

impl From<BlockError> for LoopError {
    fn from(err: BlockError) -> (r: Self) {
        LoopError::BlockError(err)
    }
}

impl vstd::std_specs::convert::FromSpecImpl<BlockError> for LoopError {
    open spec fn obeys_from_spec() -> bool {
        true
    }

    open spec fn from_spec(err: BlockError) -> Self {
        LoopError::BlockError(err)
    }
}

impl From<UserError> for LoopError {
    fn from(err: UserError) -> (r: Self) {
        LoopError::UserError(err)
    }
}

impl vstd::std_specs::convert::FromSpecImpl<UserError> for LoopError {
    open spec fn obeys_from_spec() -> bool {
        true
    }

    open spec fn from_spec(err: UserError) -> Self {
        LoopError::UserError(err)
    }
}

impl From<InternalError> for LoopError {
    fn from(err: InternalError) -> (r: Self) {
        LoopError::InternalError(err)
    }
}

impl vstd::std_specs::convert::FromSpecImpl<InternalError> for LoopError {
    open spec fn obeys_from_spec() -> bool {
        true
    }

    open spec fn from_spec(err: InternalError) -> Self {
        LoopError::InternalError(err)
    }
}

impl From<EmailConfirmError> for UserError {
    fn from(err: EmailConfirmError) -> (r: Self) {
        UserError::EmailConfirmError(err)
    }
}

impl vstd::std_specs::convert::FromSpecImpl<EmailConfirmError> for UserError {
    open spec fn obeys_from_spec() -> bool {
        true
    }

    open spec fn from_spec(err: EmailConfirmError) -> Self {
        UserError::EmailConfirmError(err)
    }
}

impl NoAccessSubject {
    /// The message text for this subject.
    pub open spec fn spec_message(self) -> Seq<char> {
        match self {
            NoAccessSubject::OtherUserCredits => "another user's credits"@,
            NoAccessSubject::UpdatePermissions(id) => "updating block "@
                + spec_decimal_signed(id as int) + "'s permissions"@,
            NoAccessSubject::DeleteBlock(id) => "deleting block "@ + spec_decimal_signed(id as int),
            NoAccessSubject::ViewBlock(id) => "viewing block "@ + spec_decimal_signed(id as int),
            NoAccessSubject::ViewComment(id) => "viewing comment "@ + spec_decimal_signed(
                id as int,
            ),
            NoAccessSubject::NotifBlock(id) => "setting block "@ + spec_decimal_signed(id as int)
                + "'s notifications"@,
            NoAccessSubject::EditColor(id) => "changing block "@ + spec_decimal_signed(id as int)
                + "'s color"@,
        }
    }

    /// Renders the message text for this subject.
    pub fn message(&self) -> (r: String)
        ensures
            r@ == self.spec_message(),
    {
        match self {
            NoAccessSubject::OtherUserCredits => String::from_str("another user's credits"),
            NoAccessSubject::UpdatePermissions(id) => String::from_str("updating block ").concat(
                i64_to_decimal(*id).as_str(),
            ).concat("'s permissions"),
            NoAccessSubject::DeleteBlock(id) => String::from_str("deleting block ").concat(
                i64_to_decimal(*id).as_str(),
            ),
            NoAccessSubject::ViewBlock(id) => String::from_str("viewing block ").concat(
                i64_to_decimal(*id).as_str(),
            ),
            NoAccessSubject::ViewComment(id) => String::from_str("viewing comment ").concat(
                i64_to_decimal(*id).as_str(),
            ),
            NoAccessSubject::NotifBlock(id) => String::from_str("setting block ").concat(
                i64_to_decimal(*id).as_str(),
            ).concat("'s notifications"),
            NoAccessSubject::EditColor(id) => String::from_str("changing block ").concat(
                i64_to_decimal(*id).as_str(),
            ).concat("'s color"),
        }
    }
}

impl InternalError {
    /// The message text for this error.
    pub open spec fn spec_message(self) -> Seq<char> {
        match self {
            InternalError::DatabaseTimeout => "[idt] There was an issue with connecting to the database."@,
            InternalError::GenericInternalError => "[ig] Something unspecified went wrong internally."@,
            InternalError::EmailError => "[img] Something went wrong with Loop's emailing system."@,
        }
    }

    /// Renders the message text for this error.
    pub fn message(&self) -> (r: String)
        ensures
            r@ == self.spec_message(),
    {
        match self {
            InternalError::DatabaseTimeout => String::from_str(
                "[idt] There was an issue with connecting to the database.",
            ),
            InternalError::GenericInternalError => String::from_str(
                "[ig] Something unspecified went wrong internally.",
            ),
            InternalError::EmailError => String::from_str(
                "[img] Something went wrong with Loop's emailing system.",
            ),
        }
    }
}

impl EmailConfirmErrorView {
    /// The message text for this error.
    pub open spec fn spec_message(self) -> Seq<char> {
        match self {
            EmailConfirmErrorView::NotFound(name) => "[uecn] An email confirmation with the username \""@
                + name + "\" was not found."@,
            EmailConfirmErrorView::Invalid => "[ueci] The verification code and/or session code were incorrect."@,
            EmailConfirmErrorView::Expired => "[uece] The email confirmation has expired because more than 5 minutes has passed since its creation."@,
        }
    }
}

impl EmailConfirmError {
    /// Renders the message text for this error.
    pub fn message(&self) -> (r: String)
        ensures
            r@ == self@.spec_message(),
    {
        match self {
            EmailConfirmError::NotFound(name) => String::from_str(
                "[uecn] An email confirmation with the username \"",
            ).concat(name.as_str()).concat("\" was not found."),
            EmailConfirmError::Invalid => String::from_str(
                "[ueci] The verification code and/or session code were incorrect.",
            ),
            EmailConfirmError::Expired => String::from_str(
                "[uece] The email confirmation has expired because more than 5 minutes has passed since its creation.",
            ),
        }
    }
}

impl BlockErrorView {
    /// The message text for this error.
    pub open spec fn spec_message(self) -> Seq<char> {
        match self {
            BlockErrorView::TypeExist(name) => "[bte] A block type called '"@ + name
                + "' was not found."@,
            BlockErrorView::MethodExist(name, block_type) => "[bme] A method called '"@ + name
                + "' was not found for the "@ + block_type + " block type."@,
            BlockErrorView::TypeGenericError(err) => "[btg] "@ + err,
            BlockErrorView::InputParse => "[bip] The input string could not be parsed properly."@,
        }
    }
}

impl BlockError {
    /// Renders the message text for this error.
    pub fn message(&self) -> (r: String)
        ensures
            r@ == self@.spec_message(),
    {
        match self {
            BlockError::TypeExist(name) => String::from_str("[bte] A block type called '").concat(
                name.as_str(),
            ).concat("' was not found."),
            BlockError::MethodExist(name, block_type) => String::from_str(
                "[bme] A method called '",
            ).concat(name.as_str()).concat("' was not found for the ").concat(
                block_type.as_str(),
            ).concat(" block type."),
            BlockError::TypeGenericError(err) => String::from_str("[btg] ").concat(err.as_str()),
            BlockError::InputParse => String::from_str(
                "[bip] The input string could not be parsed properly.",
            ),
        }
    }
}

impl UserErrorView {
    /// The message text for this error.
    pub open spec fn spec_message(self) -> Seq<char> {
        match self {
            UserErrorView::NameConflict(name) => "[unc] Username '"@ + name
                + "' is already in use."@,
            UserErrorView::NameNonexist(name) => "[une] A user with the username '"@ + name
                + "' was not found."@,
            UserErrorView::PasswordTooShort => "[ups] The password provided was too short."@,
            UserErrorView::NameTooShort(name) => "[uns] The username `"@ + name
                + "` provided was too short."@,
            UserErrorView::PasswordMatch => "[upm] The password provided is not correct."@,
            UserErrorView::EmailConfirmError(err) => err.spec_message(),
            UserErrorView::JwtGeneric => "[ujg] Something unspecified went wrong with user sessions."@,
            UserErrorView::NoAccess(scope) => "[uad] Access to "@ + scope.spec_message()
                + " was denied."@,
            UserErrorView::NeedAuth => "[uar] Authentication headers are required."@,
            UserErrorView::InsufficientFunds(needed) => "[uci] Insuffecient funds. "@
                + spec_decimal_signed(needed as int) + " credits are needed."@,
        }
    }
}

impl UserError {
    /// Renders the message text for this error.
    pub fn message(&self) -> (r: String)
        ensures
            r@ == self@.spec_message(),
    {
        match self {
            UserError::NameConflict(name) => String::from_str("[unc] Username '").concat(
                name.as_str(),
            ).concat("' is already in use."),
            UserError::NameNonexist(name) => String::from_str(
                "[une] A user with the username '",
            ).concat(name.as_str()).concat("' was not found."),
            UserError::PasswordTooShort => String::from_str(
                "[ups] The password provided was too short.",
            ),
            UserError::NameTooShort(name) => String::from_str("[uns] The username `").concat(
                name.as_str(),
            ).concat("` provided was too short."),
            UserError::PasswordMatch => String::from_str(
                "[upm] The password provided is not correct.",
            ),
            UserError::EmailConfirmError(err) => err.message(),
            UserError::JwtGeneric => String::from_str(
                "[ujg] Something unspecified went wrong with user sessions.",
            ),
            UserError::NoAccess(scope) => String::from_str("[uad] Access to ").concat(
                scope.message().as_str(),
            ).concat(" was denied."),
            UserError::NeedAuth => String::from_str("[uar] Authentication headers are required."),
            UserError::InsufficientFunds(needed) => String::from_str(
                "[uci] Insuffecient funds. ",
            ).concat(i32_to_decimal(*needed).as_str()).concat(" credits are needed."),
        }
    }
}

impl LoopErrorView {
    /// The message text for this error.
    pub open spec fn spec_message(self) -> Seq<char> {
        match self {
            LoopErrorView::GenericError => "[g] Something unspecified went wrong."@,
            LoopErrorView::InternalError(err) => err.spec_message(),
            LoopErrorView::UserError(err) => err.spec_message(),
            LoopErrorView::BlockError(err) => err.spec_message(),
        }
    }
}

impl LoopError {
    /// Renders the message text for this error.
    pub fn message(&self) -> (r: String)
        ensures
            r@ == self@.spec_message(),
    {
        match self {
            LoopError::GenericError => String::from_str("[g] Something unspecified went wrong."),
            LoopError::InternalError(err) => err.message(),
            LoopError::UserError(err) => err.message(),
            LoopError::BlockError(err) => err.message(),
        }
    }
}

} // verus!
