use vstd::prelude::*;

verus! {

/// The categories of personally identifiable information that are recognised.
#[derive(Debug, Clone, Copy, PartialEq, Eq, Hash, Structural)]
pub enum PIIType {
    Ssn,
    CreditCard,
    Email,
    Phone,
    Address,
    IpAddress,
    DateOfBirth,
    Passport,
    DriversLicense,
    BankAccount,
}

impl PIIType {
    /// The fixed placeholder that replaces text of this category.
    pub open spec fn placeholder(self) -> Seq<char> {
        match self {
            PIIType::Ssn => "[SSN_REDACTED]"@,
            PIIType::CreditCard => "[CARD_REDACTED]"@,
            PIIType::Email => "[EMAIL_REDACTED]"@,
            PIIType::Phone => "[PHONE_REDACTED]"@,
            PIIType::Address => "[ADDRESS_REDACTED]"@,
            PIIType::IpAddress => "[IP_REDACTED]"@,
            PIIType::DateOfBirth => "[DOB_REDACTED]"@,
            PIIType::Passport => "[PASSPORT_REDACTED]"@,
            PIIType::DriversLicense => "[DL_REDACTED]"@,
            PIIType::BankAccount => "[ACCOUNT_REDACTED]"@,
        }
    }

    /// Get the redaction placeholder for this category.
    pub fn redaction(&self) -> (r: &'static str)
        ensures
            r@ == self.placeholder(),
    {
        match self {
            PIIType::Ssn => "[SSN_REDACTED]",
            PIIType::CreditCard => "[CARD_REDACTED]",
            PIIType::Email => "[EMAIL_REDACTED]",
            PIIType::Phone => "[PHONE_REDACTED]",
            PIIType::Address => "[ADDRESS_REDACTED]",
            PIIType::IpAddress => "[IP_REDACTED]",
            PIIType::DateOfBirth => "[DOB_REDACTED]",
            PIIType::Passport => "[PASSPORT_REDACTED]",
            PIIType::DriversLicense => "[DL_REDACTED]",
            PIIType::BankAccount => "[ACCOUNT_REDACTED]",
        }
    }
}

} // verus!

verus! {

/// Governance action to take on a text.
#[derive(Debug, Clone, Copy, PartialEq, Eq, Hash, Structural)]
pub enum GovernanceAction {
    Allow,
    Deny,
    Redact,
    Escalate,
}

impl Default for GovernanceAction {
    fn default() -> (r: Self)
        ensures
            r == GovernanceAction::Redact,
    {
        GovernanceAction::Redact
    }
}

/// A single occurrence of personally identifiable information in a text.
#[derive(Debug, Clone)]
pub struct PIIMatch {
    pub pii_type: PIIType,
    pub value: String,
    pub start_index: usize,
    pub end_index: usize,
}

impl View for PIIMatch {
    /// Category, matched text, byte start and byte end.
    type V = (PIIType, Seq<char>, int, int);

    open spec fn view(&self) -> Self::V {
        (self.pii_type, self.value@, self.start_index as int, self.end_index as int)
    }
}

/// The views of a sequence of matches.
pub open spec fn matches_view(ms: Seq<PIIMatch>) -> Seq<(PIIType, Seq<char>, int, int)> {
    ms.map_values(|m: PIIMatch| m@)
}

/// Result of scanning a text.
#[derive(Debug, Clone)]
pub struct PIIDetectionResult {
    pub has_pii: bool,
    pub types: Vec<PIIType>,
    pub count: usize,
    pub matches: Vec<PIIMatch>,
    pub redacted_text: String,
}

} // verus!

verus! {

impl PIIType {
    /// The category's variant name in lower case.
    pub open spec fn lowercase_name_spec(self) -> Seq<char> {
        match self {
            PIIType::Ssn => "ssn"@,
            PIIType::CreditCard => "creditcard"@,
            PIIType::Email => "email"@,
            PIIType::Phone => "phone"@,
            PIIType::Address => "address"@,
            PIIType::IpAddress => "ipaddress"@,
            PIIType::DateOfBirth => "dateofbirth"@,
            PIIType::Passport => "passport"@,
            PIIType::DriversLicense => "driverslicense"@,
            PIIType::BankAccount => "bankaccount"@,
        }
    }

    /// The category's variant name in lower case, as error responses list it.
    pub fn lowercase_name(&self) -> (r: &'static str)
        ensures
            r@ == self.lowercase_name_spec(),
    {
        match self {
            PIIType::Ssn => "ssn",
            PIIType::CreditCard => "creditcard",
            PIIType::Email => "email",
            PIIType::Phone => "phone",
            PIIType::Address => "address",
            PIIType::IpAddress => "ipaddress",
            PIIType::DateOfBirth => "dateofbirth",
            PIIType::Passport => "passport",
            PIIType::DriversLicense => "driverslicense",
            PIIType::BankAccount => "bankaccount",
        }
    }
}

} // verus!
