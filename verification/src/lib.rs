//! Typed model of the free-reseau.fr status service: identifiers of the three
//! kinds of target, the request they normalise to, the scan that recovers a
//! boolean from a response body, and the status vocabularies it maps to.
//!
//! Nothing here touches the network. A caller asks [`query::request_url`]
//! where to send a request, performs the transfer by its own means, and
//! hands what came back to one of the functions of [`query`].

use crate::decimal::{decimal, decimal_string, lemma_decimal_digits};
use crate::transport::failure_message;
use vstd::prelude::*;
use vstd::std_specs::cmp::PartialEqSpecImpl;
use vstd::std_specs::convert::FromSpecImpl;
use vstd::string::StringExecFns;

pub mod decimal;
pub mod parser;
pub mod query;
pub mod request;
pub mod text;
pub mod transport;

pub use crate::request::{Request, RequestView};

verus! {

/// The resource that every request path starts with.
pub const BASE_URL: &'static str = "https://www.free-reseau.fr/outils/api";

/// An NRA, by its wire name. For example: `mon75`.
#[derive(Debug, Clone, Eq, PartialOrd, Ord)]
pub struct NRA(pub String);

impl PartialEq for NRA {
    fn eq(&self, other: &Self) -> (equal: bool) {
        self.0 == other.0
    }
}

impl PartialEqSpecImpl for NRA {
    open spec fn obeys_eq_spec() -> bool {
        true
    }

    /// Two NRA are equal where they have the same name.
    open spec fn eq_spec(&self, other: &Self) -> bool {
        self@ == other@
    }
}

impl View for NRA {
    type V = Seq<char>;

    open spec fn view(&self) -> Seq<char> {
        self.0@
    }
}

impl NRA {
    /// The wire name of the NRA of site `target` in a departement.
    pub open spec fn name_of(target: Seq<char>, departement_number: u16) -> Seq<char> {
        target + decimal(departement_number as nat)
    }

    /// Assembles the name from the site code and the departement number.
    pub fn new(target: &str, departement_number: u16) -> (nra: Self)
        ensures
            nra@ == Self::name_of(target@, departement_number),
            nra@.len() > 0,
    {
        proof {
            lemma_decimal_digits(departement_number as nat);
        }
        let number = decimal_string(departement_number);
        NRA(target.to_owned().concat(number.as_str()))
    }

    /// The wire name, as it is written into a request path.
    pub fn to_string(&self) -> (name: String)
        ensures
            name@ == self@,
    {
        self.0.clone()
    }
}

impl std::ops::Deref for NRA {
    type Target = String;

    /// The name, read in place.
    fn deref(&self) -> (wrapped: &String)
        ensures
            *wrapped == self.0,
    {
        &self.0
    }
}

impl From<&str> for NRA {
    /// Takes a name that is already assembled, as it stands.
    fn from(value: &str) -> (nra: Self)
        ensures
            nra@ == value@,
    {
        NRA(value.to_owned())
    }
}

/// The result holds a copy of the name in a string of its own, so `from`
/// states it by its view and nothing is claimed here.
impl FromSpecImpl<&str> for NRA {
    open spec fn obeys_from_spec() -> bool {
        false
    }

    open spec fn from_spec(value: &str) -> Self {
        arbitrary()
    }
}

/// A DSLAM, by its wire name. For example: `mon75-1`.
#[derive(Debug, Clone, Eq, PartialOrd, Ord)]
pub struct DSLAM(pub String);

impl PartialEq for DSLAM {
    fn eq(&self, other: &Self) -> (equal: bool) {
        self.0 == other.0
    }
}

impl PartialEqSpecImpl for DSLAM {
    open spec fn obeys_eq_spec() -> bool {
        true
    }

    /// Two DSLAM are equal where they have the same name.
    open spec fn eq_spec(&self, other: &Self) -> bool {
        self@ == other@
    }
}

impl View for DSLAM {
    type V = Seq<char>;

    open spec fn view(&self) -> Seq<char> {
        self.0@
    }
}

impl DSLAM {
    /// The wire name of the DSLAM numbered `target_id` at site `target` in a
    /// departement.
    pub open spec fn name_of(
        target: Seq<char>,
        departement_number: u16,
        target_id: u16,
    ) -> Seq<char> {
        target + decimal(departement_number as nat) + seq!['-'] + decimal(target_id as nat)
    }

    /// Assembles the name from the site code, the departement number and the
    /// number of the DSLAM.
    pub fn new(target: &str, departement_number: u16, target_id: u16) -> (dslam: Self)
        ensures
            dslam@ == Self::name_of(target@, departement_number, target_id),
            dslam@.len() > 0,
    {
        proof {
            reveal_strlit("-");
        }
        let number = decimal_string(departement_number);
        let id = decimal_string(target_id);
        DSLAM(target.to_owned().concat(number.as_str()).concat("-").concat(id.as_str()))
    }

    /// The wire name, as it is written into a request path.
    pub fn to_string(&self) -> (name: String)
        ensures
            name@ == self@,
    {
        self.0.clone()
    }
}

impl std::ops::Deref for DSLAM {
    type Target = String;

    /// The name, read in place.
    fn deref(&self) -> (wrapped: &String)
        ensures
            *wrapped == self.0,
    {
        &self.0
    }
}

impl From<&str> for DSLAM {
    /// Takes a name that is already assembled, as it stands.
    fn from(value: &str) -> (dslam: Self)
        ensures
            dslam@ == value@,
    {
        DSLAM(value.to_owned())
    }
}

/// The result holds a copy of the name in a string of its own, so `from`
/// states it by its view and nothing is claimed here.
impl FromSpecImpl<&str> for DSLAM {
    open spec fn obeys_from_spec() -> bool {
        false
    }

    open spec fn from_spec(value: &str) -> Self {
        arbitrary()
    }
}

/// A departement, by its number. For example: `75`.
#[derive(Debug, Clone, Copy, PartialEq, Eq, Structural, PartialOrd, Ord)]
pub struct Departement(pub u16);

impl View for Departement {
    type V = Seq<char>;

    /// The wire name: the decimal numeral of the number.
    open spec fn view(&self) -> Seq<char> {
        decimal(self.0 as nat)
    }
}

impl Departement {
    /// The departement numbered `target`.
    pub fn new(target: u16) -> (departement: Self)
        ensures
            departement.0 == target,
    {
        Departement(target)
    }

    /// The wire name, as it is written into a request path.
    pub fn to_string(&self) -> (name: String)
        ensures
            name@ == self@,
    {
        decimal_string(self.0)
    }
}

impl std::ops::Deref for Departement {
    type Target = u16;

    /// The number, read in place.
    fn deref(&self) -> (wrapped: &u16)
        ensures
            *wrapped == self.0,
    {
        &self.0
    }
}

/// The three kinds of target a request can name.
#[derive(Debug, Clone, Copy, PartialEq, Eq, Structural, PartialOrd, Ord)]
pub enum TargetType {
    DSLAM,
    NRA,
    DEPARTEMENT,
}

impl TargetType {
    /// The word that names the kind in messages.
    pub open spec fn label(self) -> Seq<char> {
        match self {
            TargetType::DSLAM => "DSLAM"@,
            TargetType::NRA => "NRA"@,
            TargetType::DEPARTEMENT => "DEPARTEMENT"@,
        }
    }

    /// The word that names the kind in messages.
    pub fn to_string(&self) -> (label: String)
        ensures
            label@ == self.label(),
    {
        match self {
            TargetType::DSLAM => "DSLAM".to_owned(),
            TargetType::NRA => "NRA".to_owned(),
            TargetType::DEPARTEMENT => "DEPARTEMENT".to_owned(),
        }
    }
}

/// Status of a [`Departement`].
#[derive(Debug, Clone, Copy, PartialEq, Eq, Structural, PartialOrd, Ord)]
pub enum DepartementStatus {
    OK,
    DEGRADED,
}

impl DepartementStatus {
    /// The status for a target that is up (`true`) or not (`false`):
    /// `OK` or `DEGRADED`.
    pub open spec fn of(up: bool) -> Self {
        if up {
            DepartementStatus::OK
        } else {
            DepartementStatus::DEGRADED
        }
    }

    /// The word that the status is written with.
    pub open spec fn label(self) -> Seq<char> {
        match self {
            DepartementStatus::OK => "OK"@,
            DepartementStatus::DEGRADED => "DEGRADED"@,
        }
    }

    /// The word that the status is written with.
    pub fn to_string(&self) -> (label: String)
        ensures
            label@ == self.label(),
    {
        match self {
            DepartementStatus::OK => "OK".to_owned(),
            DepartementStatus::DEGRADED => "DEGRADED".to_owned(),
        }
    }
}

impl From<bool> for DepartementStatus {
    fn from(value: bool) -> (status: Self)
        ensures
            status == DepartementStatus::of(value),
    {
        if value {
            DepartementStatus::OK
        } else {
            DepartementStatus::DEGRADED
        }
    }
}

impl FromSpecImpl<bool> for DepartementStatus {
    open spec fn obeys_from_spec() -> bool {
        true
    }

    open spec fn from_spec(value: bool) -> Self {
        DepartementStatus::of(value)
    }
}

/// Status of a [`NRA`].
#[derive(Debug, Clone, Copy, PartialEq, Eq, Structural, PartialOrd, Ord)]
pub enum NRAStatus {
    OK,
    DEGRADED,
}

impl NRAStatus {
    /// The status for a target that is up (`true`) or not (`false`):
    /// `OK` or `DEGRADED`.
    pub open spec fn of(up: bool) -> Self {
        if up {
            NRAStatus::OK
        } else {
            NRAStatus::DEGRADED
        }
    }

    /// The word that the status is written with.
    pub open spec fn label(self) -> Seq<char> {
        match self {
            NRAStatus::OK => "OK"@,
            NRAStatus::DEGRADED => "DEGRADED"@,
        }
    }

    /// The word that the status is written with.
    pub fn to_string(&self) -> (label: String)
        ensures
            label@ == self.label(),
    {
        match self {
            NRAStatus::OK => "OK".to_owned(),
            NRAStatus::DEGRADED => "DEGRADED".to_owned(),
        }
    }
}

impl From<bool> for NRAStatus {
    fn from(value: bool) -> (status: Self)
        ensures
            status == NRAStatus::of(value),
    {
        if value {
            NRAStatus::OK
        } else {
            NRAStatus::DEGRADED
        }
    }
}

impl FromSpecImpl<bool> for NRAStatus {
    open spec fn obeys_from_spec() -> bool {
        true
    }

    open spec fn from_spec(value: bool) -> Self {
        NRAStatus::of(value)
    }
}

/// Status of a [`DSLAM`].
#[derive(Debug, Clone, Copy, PartialEq, Eq, Structural, PartialOrd, Ord)]
pub enum DSLAMStatus {
    ONLINE,
    OFFLINE,
}

impl DSLAMStatus {
    /// The status for a target that is up (`true`) or not (`false`):
    /// `ONLINE` or `OFFLINE`.
    pub open spec fn of(up: bool) -> Self {
        if up {
            DSLAMStatus::ONLINE
        } else {
            DSLAMStatus::OFFLINE
        }
    }

    /// The word that the status is written with.
    pub open spec fn label(self) -> Seq<char> {
        match self {
            DSLAMStatus::ONLINE => "ONLINE"@,
            DSLAMStatus::OFFLINE => "OFFLINE"@,
        }
    }

    /// The word that the status is written with.
    pub fn to_string(&self) -> (label: String)
        ensures
            label@ == self.label(),
    {
        match self {
            DSLAMStatus::ONLINE => "ONLINE".to_owned(),
            DSLAMStatus::OFFLINE => "OFFLINE".to_owned(),
        }
    }
}

impl From<bool> for DSLAMStatus {
    fn from(value: bool) -> (status: Self)
        ensures
            status == DSLAMStatus::of(value),
    {
        if value {
            DSLAMStatus::ONLINE
        } else {
            DSLAMStatus::OFFLINE
        }
    }
}

impl FromSpecImpl<bool> for DSLAMStatus {
    open spec fn obeys_from_spec() -> bool {
        true
    }

    open spec fn from_spec(value: bool) -> Self {
        DSLAMStatus::of(value)
    }
}

/// Each status is the status of exactly one boolean: true gives `OK` or
/// `ONLINE`, false gives `DEGRADED` or `OFFLINE`, and there is no third
/// value.
pub proof fn lemma_status_two_valued(
    nra: NRAStatus,
    dslam: DSLAMStatus,
    departement: DepartementStatus,
)
    ensures
        NRAStatus::of(true) == NRAStatus::OK,
        NRAStatus::of(false) == NRAStatus::DEGRADED,
        DSLAMStatus::of(true) == DSLAMStatus::ONLINE,
        DSLAMStatus::of(false) == DSLAMStatus::OFFLINE,
        DepartementStatus::of(true) == DepartementStatus::OK,
        DepartementStatus::of(false) == DepartementStatus::DEGRADED,
        nra == NRAStatus::of(nra == NRAStatus::OK),
        dslam == DSLAMStatus::of(dslam == DSLAMStatus::ONLINE),
        departement == DepartementStatus::of(departement == DepartementStatus::OK),
{
}

/// What a query came to, as a value to report.
#[derive(Debug, Clone, Eq, PartialOrd, Ord)]
pub enum Response {
    /// Answer for a [`DSLAM`].
    DSLAM {
        /// The name that was asked for.
        target: String,
        target_status: DSLAMStatus,
    },
    /// Answer for a [`NRA`].
    NRA {
        /// The name that was asked for.
        target: String,
        target_status: NRAStatus,
    },
    /// Answer for a [`Departement`].
    DEPARTEMENT {
        /// The name that was asked for.
        target: String,
        target_status: DepartementStatus,
    },
    /// The query failed.
    Error {
        /// The name that was asked for.
        target: String,
        /// The kind that was asked for.
        target_type: TargetType,
        /// The failure, in words.
        error_message: String,
    },
}

/// A [`Response`] with its strings as sequences of characters.
pub enum ResponseView {
    DSLAM { target: Seq<char>, target_status: DSLAMStatus },
    NRA { target: Seq<char>, target_status: NRAStatus },
    DEPARTEMENT { target: Seq<char>, target_status: DepartementStatus },
    Error { target: Seq<char>, target_type: TargetType, error_message: Seq<char> },
}

impl View for Response {
    type V = ResponseView;

    open spec fn view(&self) -> ResponseView {
        match *self {
            Response::DSLAM { target, target_status } => ResponseView::DSLAM {
                target: target@,
                target_status,
            },
            Response::NRA { target, target_status } => ResponseView::NRA {
                target: target@,
                target_status,
            },
            Response::DEPARTEMENT { target, target_status } => ResponseView::DEPARTEMENT {
                target: target@,
                target_status,
            },
            Response::Error { target, target_type, error_message } => ResponseView::Error {
                target: target@,
                target_type,
                error_message: error_message@,
            },
        }
    }
}

impl PartialEq for Response {
    fn eq(&self, other: &Self) -> (equal: bool) {
        match (self, other) {
            (
                Response::DSLAM { target, target_status },
                Response::DSLAM { target: other_target, target_status: other_status },
            ) => *target == *other_target && *target_status == *other_status,
            (
                Response::NRA { target, target_status },
                Response::NRA { target: other_target, target_status: other_status },
            ) => *target == *other_target && *target_status == *other_status,
            (
                Response::DEPARTEMENT { target, target_status },
                Response::DEPARTEMENT { target: other_target, target_status: other_status },
            ) => *target == *other_target && *target_status == *other_status,
            (
                Response::Error { target, target_type, error_message },
                Response::Error {
                    target: other_target,
                    target_type: other_type,
                    error_message: other_message,
                },
            ) => *target == *other_target && *target_type == *other_type && *error_message
                == *other_message,
            _ => false,
        }
    }
}

impl PartialEqSpecImpl for Response {
    open spec fn obeys_eq_spec() -> bool {
        true
    }

    /// Two responses are equal where they are of the same kind and say the
    /// same of the same name.
    open spec fn eq_spec(&self, other: &Self) -> bool {
        self@ == other@
    }
}

/// Why a query gave no status.
#[derive(Debug)]
pub enum ApiError {
    /// The transfer failed; the failure is kept as the transport gave it.
    Reqwest(reqwest::Error),
    /// The response carried no status for the target of this kind and name.
    NonExistent(TargetType, String),
}

impl ApiError {
    /// The message for a target of kind `target_type` and name `target` that
    /// the service gave no status for.
    pub open spec fn nonexistent_message(target_type: TargetType, target: Seq<char>) -> Seq<char> {
        "Nonexistent "@ + target_type.label() + " was provided `"@ + target + "`"@
    }

    /// Whether this is the error for a target of kind `target_type` and name
    /// `target` that the service gave no status for.
    pub open spec fn is_nonexistent(self, target_type: TargetType, target: Seq<char>) -> bool {
        match self {
            ApiError::NonExistent(kind, name) => kind == target_type && name@ == target,
            ApiError::Reqwest(_) => false,
        }
    }

    /// The error in words. For a failed transfer they are the transport's.
    pub fn to_string(&self) -> (message: String)
        ensures
            *self matches ApiError::NonExistent(target_type, target) ==> message@
                == Self::nonexistent_message(target_type, target@),
    {
        match self {
            ApiError::Reqwest(failure) => failure_message(failure),
            ApiError::NonExistent(target_type, target) => {
                let label = target_type.to_string();
                "Nonexistent ".to_owned().concat(label.as_str()).concat(" was provided `").concat(
                    target.as_str(),
                ).concat("`")
            },
        }
    }
}

impl From<reqwest::Error> for ApiError {
    fn from(failure: reqwest::Error) -> (error: Self) {
        ApiError::Reqwest(failure)
    }
}

impl FromSpecImpl<reqwest::Error> for ApiError {
    open spec fn obeys_from_spec() -> bool {
        true
    }

    /// The failure, wrapped as it is.
    open spec fn from_spec(failure: reqwest::Error) -> Self {
        ApiError::Reqwest(failure)
    }
}

} // verus!
