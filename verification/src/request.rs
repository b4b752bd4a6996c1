//! The request that every identifier normalises to: the name to ask for and
//! the kind it is asked as.

use crate::decimal::{decimal, decimal_string, lemma_decimal_injective};
use crate::{Departement, TargetType, DSLAM, NRA};
use vstd::prelude::*;
use vstd::std_specs::cmp::PartialEqSpecImpl;
use vstd::std_specs::convert::FromSpecImpl;
use vstd::string::StringExecFns;

verus! {

/// A target to ask the service about. It is made from an identifier and
/// from nothing else, so its kind is always that of the identifier.
#[derive(Debug, Clone, Eq, PartialOrd, Ord)]
pub struct Request {
    target: String,
    target_type: TargetType,
}

/// A [`Request`] with its name as a sequence of characters.
pub struct RequestView {
    pub target: Seq<char>,
    pub target_type: TargetType,
}

impl View for Request {
    type V = RequestView;

    closed spec fn view(&self) -> RequestView {
        RequestView { target: self.target@, target_type: self.target_type }
    }
}

impl PartialEq for Request {
    fn eq(&self, other: &Self) -> (equal: bool) {
        self.target == other.target && self.target_type == other.target_type
    }
}

impl PartialEqSpecImpl for Request {
    open spec fn obeys_eq_spec() -> bool {
        true
    }

    /// Two requests are equal where they ask for the same name as the same
    /// kind.
    open spec fn eq_spec(&self, other: &Self) -> bool {
        self@ == other@
    }
}

impl Request {
    /// The request for the NRA named `name`.
    pub open spec fn for_nra(name: Seq<char>) -> RequestView {
        RequestView { target: name, target_type: TargetType::NRA }
    }

    /// The request for the DSLAM named `name`.
    pub open spec fn for_dslam(name: Seq<char>) -> RequestView {
        RequestView { target: name, target_type: TargetType::DSLAM }
    }

    /// The request for the departement numbered `number`.
    pub open spec fn for_departement(number: u16) -> RequestView {
        RequestView { target: decimal(number as nat), target_type: TargetType::DEPARTEMENT }
    }

    /// The text of a request: its name, a space, the word for its kind.
    pub open spec fn text_of(request: RequestView) -> Seq<char> {
        request.target + " "@ + request.target_type.label()
    }

    /// The name that is asked for, as it goes into the request path.
    pub fn target(&self) -> (target: &str)
        ensures
            target@ == self@.target,
    {
        self.target.as_str()
    }

    /// The kind that the name is asked as.
    pub fn target_type(&self) -> (target_type: TargetType)
        ensures
            target_type == self@.target_type,
    {
        self.target_type
    }

    /// The request in words: its name, a space, the word for its kind.
    pub fn to_string(&self) -> (text: String)
        ensures
            text@ == Self::text_of(self@),
    {
        let label = self.target_type.to_string();
        self.target.clone().concat(" ").concat(label.as_str())
    }
}

impl From<NRA> for Request {
    fn from(value: NRA) -> (request: Self)
        ensures
            request@ == Request::for_nra(value@),
    {
        Request { target: value.0, target_type: TargetType::NRA }
    }
}

impl FromSpecImpl<NRA> for Request {
    open spec fn obeys_from_spec() -> bool {
        true
    }

    closed spec fn from_spec(value: NRA) -> Self {
        Request { target: value.0, target_type: TargetType::NRA }
    }
}

impl From<&NRA> for Request {
    fn from(value: &NRA) -> (request: Self)
        ensures
            request@ == Request::for_nra(value@),
    {
        Request { target: value.0.clone(), target_type: TargetType::NRA }
    }
}

impl FromSpecImpl<&NRA> for Request {
    open spec fn obeys_from_spec() -> bool {
        true
    }

    closed spec fn from_spec(value: &NRA) -> Self {
        Request { target: value.0, target_type: TargetType::NRA }
    }
}

impl From<DSLAM> for Request {
    fn from(value: DSLAM) -> (request: Self)
        ensures
            request@ == Request::for_dslam(value@),
    {
        Request { target: value.0, target_type: TargetType::DSLAM }
    }
}

impl FromSpecImpl<DSLAM> for Request {
    open spec fn obeys_from_spec() -> bool {
        true
    }

    closed spec fn from_spec(value: DSLAM) -> Self {
        Request { target: value.0, target_type: TargetType::DSLAM }
    }
}

impl From<&DSLAM> for Request {
    fn from(value: &DSLAM) -> (request: Self)
        ensures
            request@ == Request::for_dslam(value@),
    {
        Request { target: value.0.clone(), target_type: TargetType::DSLAM }
    }
}

impl FromSpecImpl<&DSLAM> for Request {
    open spec fn obeys_from_spec() -> bool {
        true
    }

    closed spec fn from_spec(value: &DSLAM) -> Self {
        Request { target: value.0, target_type: TargetType::DSLAM }
    }
}

impl From<Departement> for Request {
    fn from(value: Departement) -> (request: Self)
        ensures
            request@ == Request::for_departement(value.0),
    {
        Request { target: decimal_string(value.0), target_type: TargetType::DEPARTEMENT }
    }
}

/// The result holds the numeral in a string of its own, so `from` states
/// it by its view and nothing is claimed here.
impl FromSpecImpl<Departement> for Request {
    open spec fn obeys_from_spec() -> bool {
        false
    }

    open spec fn from_spec(value: Departement) -> Self {
        arbitrary()
    }
}

impl From<&Departement> for Request {
    fn from(value: &Departement) -> (request: Self)
        ensures
            request@ == Request::for_departement(value.0),
    {
        Request { target: decimal_string(value.0), target_type: TargetType::DEPARTEMENT }
    }
}

/// The result holds the numeral in a string of its own, so `from` states
/// it by its view and nothing is claimed here.
impl FromSpecImpl<&Departement> for Request {
    open spec fn obeys_from_spec() -> bool {
        false
    }

    open spec fn from_spec(value: &Departement) -> Self {
        arbitrary()
    }
}

/// Two NRA give the same request exactly where they have the same name,
/// and likewise two DSLAM, and two departements where they have the same
/// number.
pub proof fn lemma_request_injective_per_kind(
    a: Seq<char>,
    b: Seq<char>,
    m: u16,
    n: u16,
)
    ensures
        Request::for_nra(a) == Request::for_nra(b) <==> a == b,
        Request::for_dslam(a) == Request::for_dslam(b) <==> a == b,
        Request::for_departement(m) == Request::for_departement(n) <==> m == n,
{
    if Request::for_departement(m) == Request::for_departement(n) {
        lemma_decimal_injective(m as nat, n as nat);
    }
}

/// Identifiers of different kinds never give the same request; those that
/// share a name give requests that differ in the kind and in nothing else.
pub proof fn lemma_request_kinds_apart(nra: Seq<char>, dslam: Seq<char>, number: u16)
    ensures
        Request::for_nra(nra) != Request::for_dslam(dslam),
        Request::for_nra(nra) != Request::for_departement(number),
        Request::for_dslam(dslam) != Request::for_departement(number),
        nra == dslam ==> Request::for_nra(nra).target == Request::for_dslam(dslam).target,
        nra == decimal(number as nat) ==> Request::for_nra(nra).target
            == Request::for_departement(number).target,
        dslam == decimal(number as nat) ==> Request::for_dslam(dslam).target
            == Request::for_departement(number).target,
{
}

} // verus!
