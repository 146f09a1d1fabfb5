use vstd::prelude::*;

verus! {

/// The app settings that the client exposes.
#[derive(Debug, Clone, PartialEq, Default)]
pub struct AppInfo {
    pub auth_origin: String,
    pub id: String,
    pub name: String,
}

/// Whether an app is a complete Passage app or a Flex app.
#[derive(Debug, Clone, Copy, PartialEq, Eq, Structural, PartialOrd, Ord, Hash)]
pub enum Type {
    Complete,
    Flex,
}

/// The state of a user record.
#[derive(Debug, Clone, Copy, PartialEq, Eq, Structural, PartialOrd, Ord, Hash)]
pub enum UserStatus {
    Active,
    Inactive,
    Pending,
}

/// The kind of a WebAuthn credential.
#[derive(Debug, Clone, Copy, PartialEq, Eq, Structural, PartialOrd, Ord, Hash)]
pub enum WebAuthnType {
    Passkey,
    SecurityKey,
    Platform,
}

/// The icons of an authenticator, light and dark.
#[derive(Debug, Clone, PartialEq, Default)]
pub struct WebAuthnIcons {
    pub light: Option<String>,
    pub dark: Option<String>,
}

/// One passkey device registered to a user.
#[derive(Debug, Clone, PartialEq)]
pub struct WebAuthnDevices {
    pub created_at: String,
    pub cred_id: String,
    pub friendly_name: String,
    pub id: String,
    pub last_login_at: String,
    pub device_type: WebAuthnType,
    pub updated_at: String,
    pub usage_count: i32,
    pub icons: WebAuthnIcons,
}

/// A user record of the service, as the client returns it.
#[derive(Debug, Clone, PartialEq)]
pub struct UserInfo {
    pub created_at: String,
    /// The external id of the user; set only for users created in a Flex app.
    pub external_id: String,
    pub id: String,
    pub last_login_at: String,
    pub login_count: i32,
    pub status: UserStatus,
    pub updated_at: String,
    /// The user's metadata as raw JSON text, when the user has any.
    pub user_metadata: Option<String>,
    pub webauthn: bool,
    pub webauthn_devices: Vec<WebAuthnDevices>,
    /// The credential types that the user has authenticated with.
    pub webauthn_types: Vec<WebAuthnType>,
}

/// A Google account connected to a user.
#[derive(Debug, Clone, PartialEq, Default)]
pub struct GoogleUserSocialConnection {
    /// The external id of the social connection.
    pub provider_id: String,
    pub created_at: String,
    pub last_login_at: String,
    /// The email of the connected social user.
    pub provider_identifier: String,
}

impl GoogleUserSocialConnection {
    pub fn new(
        provider_id: String,
        created_at: String,
        last_login_at: String,
        provider_identifier: String,
    ) -> (r: GoogleUserSocialConnection)
        ensures
            r.provider_id == provider_id,
            r.created_at == created_at,
            r.last_login_at == last_login_at,
            r.provider_identifier == provider_identifier,
    {
        GoogleUserSocialConnection { provider_id, created_at, last_login_at, provider_identifier }
    }
}

/// An Apple account connected to a user.
#[derive(Debug, Clone, PartialEq, Default)]
pub struct AppleUserSocialConnection {
    /// The external id of the social connection.
    pub provider_id: String,
    pub created_at: String,
    pub last_login_at: String,
    /// The email of the connected social user.
    pub provider_identifier: String,
}

/// Whether a user event has completed.
#[derive(Debug, Clone, Copy, PartialEq, Eq, Structural, PartialOrd, Ord, Hash)]
pub enum UserEventStatus {
    Complete,
    Incomplete,
}

impl UserEventStatus {
    /// The name by which the service writes this status.
    pub open spec fn text(self) -> Seq<char> {
        match self {
            UserEventStatus::Complete => "complete"@,
            UserEventStatus::Incomplete => "incomplete"@,
        }
    }

    /// The name by which the service writes this status.
    pub fn to_string(&self) -> (r: String)
        ensures
            r@ == self.text(),
    {
        match self {
            UserEventStatus::Complete => String::from_str("complete"),
            UserEventStatus::Incomplete => String::from_str("incomplete"),
        }
    }
}

/// A recent event of a user (a login, a registration).
#[derive(Debug, Clone, PartialEq)]
pub struct UserRecentEvent {
    pub created_at: String,
    pub completed_at: Option<String>,
    pub id: String,
    pub ip_addr: String,
    pub status: UserEventStatus,
    pub event_type: String,
    pub user_agent: String,
}

impl UserRecentEvent {
    pub fn new(
        created_at: String,
        completed_at: Option<String>,
        id: String,
        ip_addr: String,
        status: UserEventStatus,
        event_type: String,
        user_agent: String,
    ) -> (r: UserRecentEvent)
        ensures
            r.created_at == created_at,
            r.completed_at == completed_at,
            r.id == id,
            r.ip_addr == ip_addr,
            r.status == status,
            r.event_type == event_type,
            r.user_agent == user_agent,
    {
        UserRecentEvent { created_at, completed_at, id, ip_addr, status, event_type, user_agent }
    }
}

/// A technology that an app is built with.
#[derive(Debug, Clone, Copy, PartialEq, Eq, Structural, PartialOrd, Ord, Hash)]
pub enum Technologies {
    React,
    Go,
    Vue,
    Angular,
    Python,
    Javascript,
    Ios,
    Android,
}

impl Technologies {
    /// The name by which the service writes this technology.
    pub open spec fn text(self) -> Seq<char> {
        match self {
            Technologies::React => "react"@,
            Technologies::Go => "go"@,
            Technologies::Vue => "vue"@,
            Technologies::Angular => "angular"@,
            Technologies::Python => "python"@,
            Technologies::Javascript => "javascript"@,
            Technologies::Ios => "ios"@,
            Technologies::Android => "android"@,
        }
    }

    /// The name by which the service writes this technology.
    pub fn to_string(&self) -> (r: String)
        ensures
            r@ == self.text(),
    {
        match self {
            Technologies::React => String::from_str("react"),
            Technologies::Go => String::from_str("go"),
            Technologies::Vue => String::from_str("vue"),
            Technologies::Angular => String::from_str("angular"),
            Technologies::Python => String::from_str("python"),
            Technologies::Javascript => String::from_str("javascript"),
            Technologies::Ios => String::from_str("ios"),
            Technologies::Android => String::from_str("android"),
        }
    }
}

impl Default for Technologies {
    fn default() -> (r: Technologies)
        ensures
            r == Technologies::React,
    {
        Technologies::React
    }
}

/// The type of a user metadata field.
#[derive(Debug, Clone, Copy, PartialEq, Eq, Structural, PartialOrd, Ord, Hash)]
pub enum UserMetadataFieldType {
    String,
    Boolean,
    Integer,
    Date,
    Phone,
    Email,
}

impl UserMetadataFieldType {
    /// The name by which the service writes this type.
    pub open spec fn text(self) -> Seq<char> {
        match self {
            UserMetadataFieldType::String => "string"@,
            UserMetadataFieldType::Boolean => "boolean"@,
            UserMetadataFieldType::Integer => "integer"@,
            UserMetadataFieldType::Date => "date"@,
            UserMetadataFieldType::Phone => "phone"@,
            UserMetadataFieldType::Email => "email"@,
        }
    }

    /// The name by which the service writes this type.
    pub fn to_string(&self) -> (r: String)
        ensures
            r@ == self.text(),
    {
        match self {
            UserMetadataFieldType::String => String::from_str("string"),
            UserMetadataFieldType::Boolean => String::from_str("boolean"),
            UserMetadataFieldType::Integer => String::from_str("integer"),
            UserMetadataFieldType::Date => String::from_str("date"),
            UserMetadataFieldType::Phone => String::from_str("phone"),
            UserMetadataFieldType::Email => String::from_str("email"),
        }
    }
}

impl Default for UserMetadataFieldType {
    fn default() -> (r: UserMetadataFieldType)
        ensures
            r == UserMetadataFieldType::String,
    {
        UserMetadataFieldType::String
    }
}

/// A metadata field that an app defines for its users.
#[derive(Debug, Clone, PartialEq)]
pub struct UserMetadataField {
    pub field_name: String,
    pub friendly_name: String,
    pub id: String,
    pub profile: bool,
    pub registration: bool,
    pub field_type: UserMetadataFieldType,
}

/// The unit in which a time to live is shown.
#[derive(Debug, Clone, Copy, PartialEq, Eq, Structural, PartialOrd, Ord, Hash)]
pub enum TtlDisplayUnit {
    S,
    M,
    H,
    D,
}

/// The settings of one-time-passcode authentication.
#[derive(Debug, Clone, PartialEq)]
pub struct OtpAuthMethod {
    pub enabled: bool,
    /// The longest time, in seconds, before the passcode expires.
    pub ttl: i32,
    pub ttl_display_unit: TtlDisplayUnit,
}

} // verus!
