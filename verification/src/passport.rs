use vstd::prelude::*;

verus! {

use crate::api::{Request, RequestBody, RequestMethod};
use crate::Integer;
use crate::json::{
    json_text, lemma_arr_view_elementwise, JsonData, JsonObject, JsonValue, strings_json,
    strings_to_json,
};

/// File uploaded to the passport service.
#[derive(Clone, Debug)]
pub struct PassportFile {
    /// Identifier for this file, used to download or reuse it.
    pub file_id: String,
    /// Unique identifier for this file, stable over time and across bots.
    pub file_unique_id: String,
    /// File size.
    pub file_size: Integer,
    /// Unix time when the file was uploaded.
    pub file_date: Integer,
}

/// Data required for decrypting and authenticating an encrypted element.
#[derive(Clone, Debug)]
pub struct EncryptedCredentials {
    /// Base64-encoded encrypted JSON-serialized payload.
    pub data: String,
    /// Base64-encoded data hash for authentication.
    pub hash: String,
    /// Base64-encoded secret encrypted with the bot's public RSA key.
    pub secret: String,
}

/// Address element.
#[derive(Clone, Debug)]
pub struct EncryptedPassportElementAddress {
    pub data: String,
    pub hash: String,
}

/// Bank statement element.
#[derive(Clone, Debug)]
pub struct EncryptedPassportElementBankStatement {
    pub files: Vec<PassportFile>,
    pub translation: Option<Vec<PassportFile>>,
    pub hash: String,
}

/// Driver license element.
#[derive(Clone, Debug)]
pub struct EncryptedPassportElementDriverLicense {
    pub data: String,
    pub front_side: PassportFile,
    pub reverse_side: PassportFile,
    pub selfie: PassportFile,
    pub translation: Option<Vec<PassportFile>>,
    pub hash: String,
}

/// E-mail element.
#[derive(Clone, Debug)]
pub struct EncryptedPassportElementEmail {
    pub email: String,
    pub hash: String,
}

/// Identity card element.
#[derive(Clone, Debug)]
pub struct EncryptedPassportElementIdentityCard {
    pub data: String,
    pub front_side: PassportFile,
    pub reverse_side: PassportFile,
    pub selfie: PassportFile,
    pub translation: Option<Vec<PassportFile>>,
    pub hash: String,
}

/// Internal passport element.
#[derive(Clone, Debug)]
pub struct EncryptedPassportElementInternalPassport {
    pub data: String,
    pub front_side: PassportFile,
    pub selfie: PassportFile,
    pub translation: Option<Vec<PassportFile>>,
    pub hash: String,
}

/// Passport element.
#[derive(Clone, Debug)]
pub struct EncryptedPassportElementPassport {
    pub data: String,
    pub front_side: PassportFile,
    pub selfie: PassportFile,
    pub translation: Option<Vec<PassportFile>>,
    pub hash: String,
}

/// Passport registration element.
#[derive(Clone, Debug)]
pub struct EncryptedPassportElementPassportRegistration {
    pub files: Vec<PassportFile>,
    pub translation: Option<Vec<PassportFile>>,
    pub hash: String,
}

/// Personal details element.
#[derive(Clone, Debug)]
pub struct EncryptedPassportElementPersonalDetails {
    pub data: String,
    pub hash: String,
}

/// Phone number element.
#[derive(Clone, Debug)]
pub struct EncryptedPassportElementPhoneNumber {
    pub phone_number: String,
    pub hash: String,
}

/// Rental agreement element.
#[derive(Clone, Debug)]
pub struct EncryptedPassportElementRentalAgreement {
    pub files: Vec<PassportFile>,
    pub translation: Option<Vec<PassportFile>>,
    pub hash: String,
}

/// Temporary registration element.
#[derive(Clone, Debug)]
pub struct EncryptedPassportElementTemporaryRegistration {
    pub files: Vec<PassportFile>,
    pub translation: Option<Vec<PassportFile>>,
    pub hash: String,
}

/// Utility bill element.
#[derive(Clone, Debug)]
pub struct EncryptedPassportElementUtilityBill {
    pub files: Vec<PassportFile>,
    pub translation: Option<Vec<PassportFile>>,
    pub hash: String,
}

/// A document or other element shared with the bot by the user.
#[derive(Clone, Debug)]
pub enum EncryptedPassportElement {
    Address(EncryptedPassportElementAddress),
    BankStatement(EncryptedPassportElementBankStatement),
    DriverLicense(EncryptedPassportElementDriverLicense),
    Email(EncryptedPassportElementEmail),
    IdentityCard(EncryptedPassportElementIdentityCard),
    InternalPassport(EncryptedPassportElementInternalPassport),
    Passport(EncryptedPassportElementPassport),
    PassportRegistration(EncryptedPassportElementPassportRegistration),
    PersonalDetails(EncryptedPassportElementPersonalDetails),
    PhoneNumber(EncryptedPassportElementPhoneNumber),
    RentalAgreement(EncryptedPassportElementRentalAgreement),
    TemporaryRegistration(EncryptedPassportElementTemporaryRegistration),
    UtilityBill(EncryptedPassportElementUtilityBill),
}

/// Kind of an encrypted passport element.
#[derive(Clone, Copy, Debug, PartialEq, Eq, Structural)]
pub enum EncryptedPassportElementKind {
    Address,
    BankStatement,
    DriverLicense,
    Email,
    IdentityCard,
    InternalPassport,
    Passport,
    PassportRegistration,
    PersonalDetails,
    PhoneNumber,
    RentalAgreement,
    TemporaryRegistration,
    UtilityBill,
}

impl EncryptedPassportElementKind {
    /// Name of the kind on the wire.
    pub open spec fn spec_name(self) -> Seq<char> {
        match self {
            EncryptedPassportElementKind::Address => "address"@,
            EncryptedPassportElementKind::BankStatement => "bank_statement"@,
            EncryptedPassportElementKind::DriverLicense => "driver_license"@,
            EncryptedPassportElementKind::Email => "email"@,
            EncryptedPassportElementKind::IdentityCard => "identity_card"@,
            EncryptedPassportElementKind::InternalPassport => "internal_passport"@,
            EncryptedPassportElementKind::Passport => "passport"@,
            EncryptedPassportElementKind::PassportRegistration => "passport_registration"@,
            EncryptedPassportElementKind::PersonalDetails => "personal_details"@,
            EncryptedPassportElementKind::PhoneNumber => "phone_number"@,
            EncryptedPassportElementKind::RentalAgreement => "rental_agreement"@,
            EncryptedPassportElementKind::TemporaryRegistration => "temporary_registration"@,
            EncryptedPassportElementKind::UtilityBill => "utility_bill"@,
        }
    }

    /// Returns the wire name of the kind.
    pub fn as_str(&self) -> (r: &'static str)
        ensures
            r@ == self.spec_name(),
    {
        match self {
            EncryptedPassportElementKind::Address => "address",
            EncryptedPassportElementKind::BankStatement => "bank_statement",
            EncryptedPassportElementKind::DriverLicense => "driver_license",
            EncryptedPassportElementKind::Email => "email",
            EncryptedPassportElementKind::IdentityCard => "identity_card",
            EncryptedPassportElementKind::InternalPassport => "internal_passport",
            EncryptedPassportElementKind::Passport => "passport",
            EncryptedPassportElementKind::PassportRegistration => "passport_registration",
            EncryptedPassportElementKind::PersonalDetails => "personal_details",
            EncryptedPassportElementKind::PhoneNumber => "phone_number",
            EncryptedPassportElementKind::RentalAgreement => "rental_agreement",
            EncryptedPassportElementKind::TemporaryRegistration => "temporary_registration",
            EncryptedPassportElementKind::UtilityBill => "utility_bill",
        }
    }
}

/// Passport data shared with the bot by the user.
#[derive(Clone, Debug)]
pub struct PassportData {
    /// Elements shared with the bot.
    pub data: Vec<EncryptedPassportElement>,
    /// Encrypted credentials required to decrypt the data.
    pub credentials: EncryptedCredentials,
}

/// The section kinds whose data fields can carry an error.
pub open spec fn data_field_kind(k: EncryptedPassportElementKind) -> bool {
    ||| k == EncryptedPassportElementKind::Address
    ||| k == EncryptedPassportElementKind::DriverLicense
    ||| k == EncryptedPassportElementKind::IdentityCard
    ||| k == EncryptedPassportElementKind::InternalPassport
    ||| k == EncryptedPassportElementKind::Passport
    ||| k == EncryptedPassportElementKind::PersonalDetails
}

/// The section kinds that carry a front side.
pub open spec fn front_side_kind(k: EncryptedPassportElementKind) -> bool {
    ||| k == EncryptedPassportElementKind::DriverLicense
    ||| k == EncryptedPassportElementKind::IdentityCard
    ||| k == EncryptedPassportElementKind::InternalPassport
    ||| k == EncryptedPassportElementKind::Passport
}

/// The section kinds that carry a reverse side.
pub open spec fn reverse_side_kind(k: EncryptedPassportElementKind) -> bool {
    ||| k == EncryptedPassportElementKind::DriverLicense
    ||| k == EncryptedPassportElementKind::IdentityCard
}

/// The section kinds that carry a selfie.
pub open spec fn selfie_kind(k: EncryptedPassportElementKind) -> bool {
    front_side_kind(k)
}

/// The section kinds that carry document scans.
pub open spec fn file_kind(k: EncryptedPassportElementKind) -> bool {
    ||| k == EncryptedPassportElementKind::BankStatement
    ||| k == EncryptedPassportElementKind::PassportRegistration
    ||| k == EncryptedPassportElementKind::RentalAgreement
    ||| k == EncryptedPassportElementKind::TemporaryRegistration
    ||| k == EncryptedPassportElementKind::UtilityBill
}

/// The section kinds that carry translated documents.
pub open spec fn translation_kind(k: EncryptedPassportElementKind) -> bool {
    front_side_kind(k) || file_kind(k)
}

/// Model of one passport element error.
pub enum PassportElementErrorData {
    DataField {
        kind: EncryptedPassportElementKind,
        field_name: Seq<char>,
        data_hash: Seq<char>,
        message: Seq<char>,
    },
    FrontSide { kind: EncryptedPassportElementKind, file_hash: Seq<char>, message: Seq<char> },
    ReverseSide { kind: EncryptedPassportElementKind, file_hash: Seq<char>, message: Seq<char> },
    Selfie { kind: EncryptedPassportElementKind, file_hash: Seq<char>, message: Seq<char> },
    File { kind: EncryptedPassportElementKind, file_hash: Seq<char>, message: Seq<char> },
    Files { kind: EncryptedPassportElementKind, file_hashes: Seq<Seq<char>>, message: Seq<char> },
    TranslationFile { kind: EncryptedPassportElementKind, file_hash: Seq<char>, message: Seq<char> },
    TranslationFiles {
        kind: EncryptedPassportElementKind,
        file_hashes: Seq<Seq<char>>,
        message: Seq<char>,
    },
    Unspecified { kind: EncryptedPassportElementKind, element_hash: Seq<char>, message: Seq<char> },
}

/// Which error source a well-formed error may use for its section kind.
pub open spec fn error_kind_ok(e: PassportElementErrorData) -> bool {
    match e {
        PassportElementErrorData::DataField { kind, .. } => data_field_kind(kind),
        PassportElementErrorData::FrontSide { kind, .. } => front_side_kind(kind),
        PassportElementErrorData::ReverseSide { kind, .. } => reverse_side_kind(kind),
        PassportElementErrorData::Selfie { kind, .. } => selfie_kind(kind),
        PassportElementErrorData::File { kind, .. } => file_kind(kind),
        PassportElementErrorData::Files { kind, .. } => file_kind(kind),
        PassportElementErrorData::TranslationFile { kind, .. } => translation_kind(kind),
        PassportElementErrorData::TranslationFiles { kind, .. } => translation_kind(kind),
        PassportElementErrorData::Unspecified { .. } => true,
    }
}

/// Wire form of one passport element error.
#[derive(Clone, Debug)]
pub enum PassportElementErrorKind {
    DataField {
        kind: EncryptedPassportElementKind,
        field_name: String,
        data_hash: String,
        message: String,
    },
    FrontSide { kind: EncryptedPassportElementKind, file_hash: String, message: String },
    ReverseSide { kind: EncryptedPassportElementKind, file_hash: String, message: String },
    Selfie { kind: EncryptedPassportElementKind, file_hash: String, message: String },
    File { kind: EncryptedPassportElementKind, file_hash: String, message: String },
    Files { kind: EncryptedPassportElementKind, file_hashes: Vec<String>, message: String },
    TranslationFile { kind: EncryptedPassportElementKind, file_hash: String, message: String },
    TranslationFiles { kind: EncryptedPassportElementKind, file_hashes: Vec<String>, message: String },
    Unspecified { kind: EncryptedPassportElementKind, element_hash: String, message: String },
}

/// An error in a passport element submitted by the user, to be resolved.
#[derive(Clone, Debug)]
pub struct PassportElementError {
    pub kind: PassportElementErrorKind,
}

impl View for PassportElementError {
    type V = PassportElementErrorData;

    open spec fn view(&self) -> PassportElementErrorData {
        match &self.kind {
            PassportElementErrorKind::DataField { kind, field_name, data_hash, message } =>
                PassportElementErrorData::DataField {
                    kind: *kind,
                    field_name: field_name@,
                    data_hash: data_hash@,
                    message: message@,
                },
            PassportElementErrorKind::FrontSide { kind, file_hash, message } =>
                PassportElementErrorData::FrontSide {
                    kind: *kind,
                    file_hash: file_hash@,
                    message: message@,
                },
            PassportElementErrorKind::ReverseSide { kind, file_hash, message } =>
                PassportElementErrorData::ReverseSide {
                    kind: *kind,
                    file_hash: file_hash@,
                    message: message@,
                },
            PassportElementErrorKind::Selfie { kind, file_hash, message } =>
                PassportElementErrorData::Selfie {
                    kind: *kind,
                    file_hash: file_hash@,
                    message: message@,
                },
            PassportElementErrorKind::File { kind, file_hash, message } =>
                PassportElementErrorData::File {
                    kind: *kind,
                    file_hash: file_hash@,
                    message: message@,
                },
            PassportElementErrorKind::Files { kind, file_hashes, message } =>
                PassportElementErrorData::Files {
                    kind: *kind,
                    file_hashes: Seq::new(file_hashes@.len(), |i: int| file_hashes@[i]@),
                    message: message@,
                },
            PassportElementErrorKind::TranslationFile { kind, file_hash, message } =>
                PassportElementErrorData::TranslationFile {
                    kind: *kind,
                    file_hash: file_hash@,
                    message: message@,
                },
            PassportElementErrorKind::TranslationFiles { kind, file_hashes, message } =>
                PassportElementErrorData::TranslationFiles {
                    kind: *kind,
                    file_hashes: Seq::new(file_hashes@.len(), |i: int| file_hashes@[i]@),
                    message: message@,
                },
            PassportElementErrorKind::Unspecified { kind, element_hash, message } =>
                PassportElementErrorData::Unspecified {
                    kind: *kind,
                    element_hash: element_hash@,
                    message: message@,
                },
        }
    }
}

/// The section kind that an unexpected-kind error reports.
#[derive(Clone, Copy, Debug, PartialEq, Eq, Structural)]
pub struct UnexpectedEncryptedPassportElementKind(pub EncryptedPassportElementKind);

impl PassportElementError {
    /// An issue in one of the data fields provided by the user; accepted only
    /// for the section kinds that carry data fields.
    pub fn data_field(
        kind: EncryptedPassportElementKind,
        field_name: &str,
        data_hash: &str,
        message: &str,
    ) -> (r: Result<PassportElementError, UnexpectedEncryptedPassportElementKind>)
        ensures
            data_field_kind(kind) ==> (r matches Ok(e) && e@ == (PassportElementErrorData::DataField {
                kind,
                field_name: field_name@,
                data_hash: data_hash@,
                message: message@,
            })),
            !data_field_kind(kind) ==> r == Err::<
                PassportElementError,
                UnexpectedEncryptedPassportElementKind,
            >(UnexpectedEncryptedPassportElementKind(kind)),
    {
        match kind {
            EncryptedPassportElementKind::Address
            | EncryptedPassportElementKind::DriverLicense
            | EncryptedPassportElementKind::IdentityCard
            | EncryptedPassportElementKind::InternalPassport
            | EncryptedPassportElementKind::Passport
            | EncryptedPassportElementKind::PersonalDetails => Ok(PassportElementError {
                kind: PassportElementErrorKind::DataField {
                    kind,
                    field_name: String::from_str(field_name),
                    data_hash: String::from_str(data_hash),
                    message: String::from_str(message),
                },
            }),
            _ => Err(UnexpectedEncryptedPassportElementKind(kind)),
        }
    }

    /// An issue with the front side of a document.
    pub fn front_side(
        kind: EncryptedPassportElementKind,
        file_hash: &str,
        message: &str,
    ) -> (r: Result<PassportElementError, UnexpectedEncryptedPassportElementKind>)
        ensures
            front_side_kind(kind) ==> (r matches Ok(e) && e@ == (PassportElementErrorData::FrontSide {
                kind,
                file_hash: file_hash@,
                message: message@,
            })),
            !front_side_kind(kind) ==> r == Err::<
                PassportElementError,
                UnexpectedEncryptedPassportElementKind,
            >(UnexpectedEncryptedPassportElementKind(kind)),
    {
        match kind {
            EncryptedPassportElementKind::DriverLicense
            | EncryptedPassportElementKind::IdentityCard
            | EncryptedPassportElementKind::InternalPassport
            | EncryptedPassportElementKind::Passport => Ok(PassportElementError {
                kind: PassportElementErrorKind::FrontSide {
                    kind,
                    file_hash: String::from_str(file_hash),
                    message: String::from_str(message),
                },
            }),
            _ => Err(UnexpectedEncryptedPassportElementKind(kind)),
        }
    }

    /// An issue with the reverse side of a document.
    pub fn reverse_side(
        kind: EncryptedPassportElementKind,
        file_hash: &str,
        message: &str,
    ) -> (r: Result<PassportElementError, UnexpectedEncryptedPassportElementKind>)
        ensures
            reverse_side_kind(kind) ==> (r matches Ok(e) && e@ == (PassportElementErrorData::ReverseSide {
                kind,
                file_hash: file_hash@,
                message: message@,
            })),
            !reverse_side_kind(kind) ==> r == Err::<
                PassportElementError,
                UnexpectedEncryptedPassportElementKind,
            >(UnexpectedEncryptedPassportElementKind(kind)),
    {
        match kind {
            EncryptedPassportElementKind::DriverLicense
            | EncryptedPassportElementKind::IdentityCard => Ok(PassportElementError {
                kind: PassportElementErrorKind::ReverseSide {
                    kind,
                    file_hash: String::from_str(file_hash),
                    message: String::from_str(message),
                },
            }),
            _ => Err(UnexpectedEncryptedPassportElementKind(kind)),
        }
    }

    /// An issue with the selfie holding a document.
    pub fn selfie(
        kind: EncryptedPassportElementKind,
        file_hash: &str,
        message: &str,
    ) -> (r: Result<PassportElementError, UnexpectedEncryptedPassportElementKind>)
        ensures
            selfie_kind(kind) ==> (r matches Ok(e) && e@ == (PassportElementErrorData::Selfie {
                kind,
                file_hash: file_hash@,
                message: message@,
            })),
            !selfie_kind(kind) ==> r == Err::<
                PassportElementError,
                UnexpectedEncryptedPassportElementKind,
            >(UnexpectedEncryptedPassportElementKind(kind)),
    {
        match kind {
            EncryptedPassportElementKind::DriverLicense
            | EncryptedPassportElementKind::IdentityCard
            | EncryptedPassportElementKind::InternalPassport
            | EncryptedPassportElementKind::Passport => Ok(PassportElementError {
                kind: PassportElementErrorKind::Selfie {
                    kind,
                    file_hash: String::from_str(file_hash),
                    message: String::from_str(message),
                },
            }),
            _ => Err(UnexpectedEncryptedPassportElementKind(kind)),
        }
    }

    /// An issue with a document scan.
    pub fn file(
        kind: EncryptedPassportElementKind,
        file_hash: &str,
        message: &str,
    ) -> (r: Result<PassportElementError, UnexpectedEncryptedPassportElementKind>)
        ensures
            file_kind(kind) ==> (r matches Ok(e) && e@ == (PassportElementErrorData::File {
                kind,
                file_hash: file_hash@,
                message: message@,
            })),
            !file_kind(kind) ==> r == Err::<
                PassportElementError,
                UnexpectedEncryptedPassportElementKind,
            >(UnexpectedEncryptedPassportElementKind(kind)),
    {
        match kind {
            EncryptedPassportElementKind::BankStatement
            | EncryptedPassportElementKind::PassportRegistration
            | EncryptedPassportElementKind::RentalAgreement
            | EncryptedPassportElementKind::TemporaryRegistration
            | EncryptedPassportElementKind::UtilityBill => Ok(PassportElementError {
                kind: PassportElementErrorKind::File {
                    kind,
                    file_hash: String::from_str(file_hash),
                    message: String::from_str(message),
                },
            }),
            _ => Err(UnexpectedEncryptedPassportElementKind(kind)),
        }
    }

    /// An issue with a list of scans.
    pub fn files(
        kind: EncryptedPassportElementKind,
        file_hashes: Vec<String>,
        message: &str,
    ) -> (r: Result<PassportElementError, UnexpectedEncryptedPassportElementKind>)
        ensures
            file_kind(kind) ==> (r matches Ok(e) && e@ == (PassportElementErrorData::Files {
                kind,
                file_hashes: Seq::new(file_hashes@.len(), |i: int| file_hashes@[i]@),
                message: message@,
            })),
            !file_kind(kind) ==> r == Err::<
                PassportElementError,
                UnexpectedEncryptedPassportElementKind,
            >(UnexpectedEncryptedPassportElementKind(kind)),
    {
        match kind {
            EncryptedPassportElementKind::BankStatement
            | EncryptedPassportElementKind::PassportRegistration
            | EncryptedPassportElementKind::RentalAgreement
            | EncryptedPassportElementKind::TemporaryRegistration
            | EncryptedPassportElementKind::UtilityBill => Ok(PassportElementError {
                kind: PassportElementErrorKind::Files {
                    kind,
                    file_hashes,
                    message: String::from_str(message),
                },
            }),
            _ => Err(UnexpectedEncryptedPassportElementKind(kind)),
        }
    }

    /// An issue with one of the files of a document translation.
    pub fn translation_file(
        kind: EncryptedPassportElementKind,
        file_hash: &str,
        message: &str,
    ) -> (r: Result<PassportElementError, UnexpectedEncryptedPassportElementKind>)
        ensures
            translation_kind(kind) ==> (r matches Ok(e) && e@ == (PassportElementErrorData::TranslationFile {
                kind,
                file_hash: file_hash@,
                message: message@,
            })),
            !translation_kind(kind) ==> r == Err::<
                PassportElementError,
                UnexpectedEncryptedPassportElementKind,
            >(UnexpectedEncryptedPassportElementKind(kind)),
    {
        match kind {
            EncryptedPassportElementKind::BankStatement
            | EncryptedPassportElementKind::DriverLicense
            | EncryptedPassportElementKind::IdentityCard
            | EncryptedPassportElementKind::InternalPassport
            | EncryptedPassportElementKind::Passport
            | EncryptedPassportElementKind::PassportRegistration
            | EncryptedPassportElementKind::RentalAgreement
            | EncryptedPassportElementKind::TemporaryRegistration
            | EncryptedPassportElementKind::UtilityBill => Ok(PassportElementError {
                kind: PassportElementErrorKind::TranslationFile {
                    kind,
                    file_hash: String::from_str(file_hash),
                    message: String::from_str(message),
                },
            }),
            _ => Err(UnexpectedEncryptedPassportElementKind(kind)),
        }
    }

    /// An issue with the translated version of a document.
    pub fn translation_files(
        kind: EncryptedPassportElementKind,
        file_hashes: Vec<String>,
        message: &str,
    ) -> (r: Result<PassportElementError, UnexpectedEncryptedPassportElementKind>)
        ensures
            translation_kind(kind) ==> (r matches Ok(e) && e@ == (PassportElementErrorData::TranslationFiles {
                kind,
                file_hashes: Seq::new(file_hashes@.len(), |i: int| file_hashes@[i]@),
                message: message@,
            })),
            !translation_kind(kind) ==> r == Err::<
                PassportElementError,
                UnexpectedEncryptedPassportElementKind,
            >(UnexpectedEncryptedPassportElementKind(kind)),
    {
        match kind {
            EncryptedPassportElementKind::BankStatement
            | EncryptedPassportElementKind::DriverLicense
            | EncryptedPassportElementKind::IdentityCard
            | EncryptedPassportElementKind::InternalPassport
            | EncryptedPassportElementKind::Passport
            | EncryptedPassportElementKind::PassportRegistration
            | EncryptedPassportElementKind::RentalAgreement
            | EncryptedPassportElementKind::TemporaryRegistration
            | EncryptedPassportElementKind::UtilityBill => Ok(PassportElementError {
                kind: PassportElementErrorKind::TranslationFiles {
                    kind,
                    file_hashes,
                    message: String::from_str(message),
                },
            }),
            _ => Err(UnexpectedEncryptedPassportElementKind(kind)),
        }
    }

    /// An issue in an unspecified place; accepted for every kind.
    pub fn unspecified(
        kind: EncryptedPassportElementKind,
        element_hash: &str,
        message: &str,
    ) -> (r: PassportElementError)
        ensures
            r@ == (PassportElementErrorData::Unspecified {
                kind,
                element_hash: element_hash@,
                message: message@,
            }),
    {
        PassportElementError {
            kind: PassportElementErrorKind::Unspecified {
                kind,
                element_hash: String::from_str(element_hash),
                message: String::from_str(message),
            },
        }
    }

    /// JSON object of the error: the source tag, the section kind, then the
    /// payload of the source.
    pub fn to_json(&self) -> (r: JsonValue)
        ensures
            r@ == passport_element_error_json(self@),
    {
        match &self.kind {
            PassportElementErrorKind::DataField { kind, field_name, data_hash, message } => {
                let mut obj = JsonObject::new();
                obj.set("source", JsonValue::Str(String::from_str("data")));
                obj.set("type", JsonValue::Str(String::from_str(kind.as_str())));
                obj.set("field_name", JsonValue::Str(field_name.clone()));
                obj.set("data_hash", JsonValue::Str(data_hash.clone()));
                obj.set("message", JsonValue::Str(message.clone()));
                let r = obj.into_value();
                proof {
                    assert(r@->Obj_0 =~= passport_element_error_json(self@)->Obj_0);
                }
                r
            }
            PassportElementErrorKind::FrontSide { kind, file_hash, message } => {
                let r = hash_error_json("front_side", *kind, file_hash, message);
                proof {
                    assert(r@->Obj_0 =~= passport_element_error_json(self@)->Obj_0);
                }
                r
            }
            PassportElementErrorKind::ReverseSide { kind, file_hash, message } => {
                let r = hash_error_json("reverse_side", *kind, file_hash, message);
                proof {
                    assert(r@->Obj_0 =~= passport_element_error_json(self@)->Obj_0);
                }
                r
            }
            PassportElementErrorKind::Selfie { kind, file_hash, message } => {
                let r = hash_error_json("selfie", *kind, file_hash, message);
                proof {
                    assert(r@->Obj_0 =~= passport_element_error_json(self@)->Obj_0);
                }
                r
            }
            PassportElementErrorKind::File { kind, file_hash, message } => {
                let r = hash_error_json("file", *kind, file_hash, message);
                proof {
                    assert(r@->Obj_0 =~= passport_element_error_json(self@)->Obj_0);
                }
                r
            }
            PassportElementErrorKind::Files { kind, file_hashes, message } => {
                let mut obj = JsonObject::new();
                obj.set("source", JsonValue::Str(String::from_str("files")));
                obj.set("type", JsonValue::Str(String::from_str(kind.as_str())));
                obj.set("file_hashes", strings_to_json(file_hashes));
                obj.set("message", JsonValue::Str(message.clone()));
                let r = obj.into_value();
                proof {
                    assert(r@->Obj_0 =~= passport_element_error_json(self@)->Obj_0);
                }
                r
            }
            PassportElementErrorKind::TranslationFile { kind, file_hash, message } => {
                let r = hash_error_json("translation_file", *kind, file_hash, message);
                proof {
                    assert(r@->Obj_0 =~= passport_element_error_json(self@)->Obj_0);
                }
                r
            }
            PassportElementErrorKind::TranslationFiles { kind, file_hashes, message } => {
                let mut obj = JsonObject::new();
                obj.set("source", JsonValue::Str(String::from_str("translation_files")));
                obj.set("type", JsonValue::Str(String::from_str(kind.as_str())));
                obj.set("file_hashes", strings_to_json(file_hashes));
                obj.set("message", JsonValue::Str(message.clone()));
                let r = obj.into_value();
                proof {
                    assert(r@->Obj_0 =~= passport_element_error_json(self@)->Obj_0);
                }
                r
            }
            PassportElementErrorKind::Unspecified { kind, element_hash, message } => {
                let mut obj = JsonObject::new();
                obj.set("source", JsonValue::Str(String::from_str("unspecified")));
                obj.set("type", JsonValue::Str(String::from_str(kind.as_str())));
                obj.set("element_hash", JsonValue::Str(element_hash.clone()));
                obj.set("message", JsonValue::Str(message.clone()));
                let r = obj.into_value();
                proof {
                    assert(r@->Obj_0 =~= passport_element_error_json(self@)->Obj_0);
                }
                r
            }
        }
    }
}

/// An error object whose payload is one file hash.
fn hash_error_json(
    source: &str,
    kind: EncryptedPassportElementKind,
    file_hash: &String,
    message: &String,
) -> (r: JsonValue)
    ensures
        r@ == JsonData::Obj(
            seq![
                ("source"@, JsonData::Str(source@)),
                ("type"@, JsonData::Str(kind.spec_name())),
                ("file_hash"@, JsonData::Str(file_hash@)),
                ("message"@, JsonData::Str(message@)),
            ],
        ),
{
    let mut obj = JsonObject::new();
    obj.set("source", JsonValue::Str(String::from_str(source)));
    obj.set("type", JsonValue::Str(String::from_str(kind.as_str())));
    obj.set("file_hash", JsonValue::Str(file_hash.clone()));
    obj.set("message", JsonValue::Str(message.clone()));
    let r = obj.into_value();
    proof {
        assert(r@->Obj_0 =~= seq![
            ("source"@, JsonData::Str(source@)),
            ("type"@, JsonData::Str(kind.spec_name())),
            ("file_hash"@, JsonData::Str(file_hash@)),
            ("message"@, JsonData::Str(message@)),
        ]);
    }
    r
}

/// One `source: tag, type, file_hash, message` error object.
pub open spec fn hash_error_data(
    source: Seq<char>,
    kind: EncryptedPassportElementKind,
    file_hash: Seq<char>,
    message: Seq<char>,
) -> JsonData {
    JsonData::Obj(
        seq![
            ("source"@, JsonData::Str(source)),
            ("type"@, JsonData::Str(kind.spec_name())),
            ("file_hash"@, JsonData::Str(file_hash)),
            ("message"@, JsonData::Str(message)),
        ],
    )
}

/// JSON object of one passport element error.
pub open spec fn passport_element_error_json(e: PassportElementErrorData) -> JsonData {
    match e {
        PassportElementErrorData::DataField { kind, field_name, data_hash, message } => JsonData::Obj(
            seq![
                ("source"@, JsonData::Str("data"@)),
                ("type"@, JsonData::Str(kind.spec_name())),
                ("field_name"@, JsonData::Str(field_name)),
                ("data_hash"@, JsonData::Str(data_hash)),
                ("message"@, JsonData::Str(message)),
            ],
        ),
        PassportElementErrorData::FrontSide { kind, file_hash, message } => hash_error_data(
            "front_side"@,
            kind,
            file_hash,
            message,
        ),
        PassportElementErrorData::ReverseSide { kind, file_hash, message } => hash_error_data(
            "reverse_side"@,
            kind,
            file_hash,
            message,
        ),
        PassportElementErrorData::Selfie { kind, file_hash, message } => hash_error_data(
            "selfie"@,
            kind,
            file_hash,
            message,
        ),
        PassportElementErrorData::File { kind, file_hash, message } => hash_error_data(
            "file"@,
            kind,
            file_hash,
            message,
        ),
        PassportElementErrorData::Files { kind, file_hashes, message } => JsonData::Obj(
            seq![
                ("source"@, JsonData::Str("files"@)),
                ("type"@, JsonData::Str(kind.spec_name())),
                ("file_hashes"@, strings_json(file_hashes)),
                ("message"@, JsonData::Str(message)),
            ],
        ),
        PassportElementErrorData::TranslationFile { kind, file_hash, message } => hash_error_data(
            "translation_file"@,
            kind,
            file_hash,
            message,
        ),
        PassportElementErrorData::TranslationFiles { kind, file_hashes, message } => JsonData::Obj(
            seq![
                ("source"@, JsonData::Str("translation_files"@)),
                ("type"@, JsonData::Str(kind.spec_name())),
                ("file_hashes"@, strings_json(file_hashes)),
                ("message"@, JsonData::Str(message)),
            ],
        ),
        PassportElementErrorData::Unspecified { kind, element_hash, message } => JsonData::Obj(
            seq![
                ("source"@, JsonData::Str("unspecified"@)),
                ("type"@, JsonData::Str(kind.spec_name())),
                ("element_hash"@, JsonData::Str(element_hash)),
                ("message"@, JsonData::Str(message)),
            ],
        ),
    }
}

/// Tells the user that some of the passport elements they provided contain
/// errors; the user cannot re-submit until the errors are fixed.
#[derive(Clone, Debug)]
pub struct SetPassportDataErrors {
    pub user_id: Integer,
    pub errors: Vec<PassportElementError>,
}

/// Model of `SetPassportDataErrors`.
pub struct SetPassportDataErrorsData {
    pub user_id: int,
    pub errors: Seq<PassportElementErrorData>,
}

impl View for SetPassportDataErrors {
    type V = SetPassportDataErrorsData;

    open spec fn view(&self) -> SetPassportDataErrorsData {
        SetPassportDataErrorsData {
            user_id: self.user_id as int,
            errors: Seq::new(self.errors@.len(), |i: int| self.errors@[i]@),
        }
    }
}

/// JSON object sent for `SetPassportDataErrors`.
pub open spec fn set_passport_data_errors_json(v: SetPassportDataErrorsData) -> JsonData {
    JsonData::Obj(
        seq![
            ("user_id"@, JsonData::Int(v.user_id)),
            ("errors"@, JsonData::Arr(Seq::new(v.errors.len(), |i: int| passport_element_error_json(v.errors[i])))),
        ],
    )
}

impl SetPassportDataErrors {
    /// Creates a new `SetPassportDataErrors`.
    pub fn new(user_id: Integer, errors: Vec<PassportElementError>) -> (r: SetPassportDataErrors)
        ensures
            r@ == (SetPassportDataErrorsData {
                user_id: user_id as int,
                errors: Seq::new(errors@.len(), |i: int| errors@[i]@),
            }),
    {
        SetPassportDataErrors { user_id, errors }
    }

    /// JSON object of the call.
    pub fn to_json(&self) -> (r: JsonValue)
        ensures
            r@ == set_passport_data_errors_json(self@),
    {
        let mut items: Vec<JsonValue> = Vec::new();
        let mut i: usize = 0;
        while i < self.errors.len()
            invariant
                i <= self.errors@.len(),
                items@.len() == i,
                forall|k: int| 0 <= k < i ==> items@[k]@ == passport_element_error_json(
                    self.errors@[k]@,
                ),
            decreases self.errors@.len() - i,
        {
            items.push(self.errors[i].to_json());
            i = i + 1;
        }
        let arr = JsonValue::Arr(items);
        proof {
            lemma_arr_view_elementwise(arr->Arr_0@);
            assert(arr@->Arr_0 =~= Seq::new(
                self@.errors.len(),
                |k: int| passport_element_error_json(self@.errors[k]),
            ));
        }
        let mut obj = JsonObject::new();
        obj.set("user_id", JsonValue::Int(self.user_id));
        obj.set("errors", arr);
        let r = obj.into_value();
        proof {
            assert(r@->Obj_0 =~= set_passport_data_errors_json(self@)->Obj_0);
        }
        r
    }

    /// The request of the call: POST `setPassportDataErrors` with the JSON body.
    pub fn into_request(self) -> (r: Request)
        ensures
            r.http_method == RequestMethod::Post,
            r.name@ == "setPassportDataErrors"@,
            r.body matches RequestBody::Json(s) && s@ == json_text(set_passport_data_errors_json(self@)),
    {
        let body = self.to_json();
        Request::json("setPassportDataErrors", &body)
    }
}

} // verus!
