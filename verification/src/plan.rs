//! What the operator asks for: the account to move and the account to make.

use crate::handle::{handle_syntax, is_handle, lemma_handle_is_ascii};
use vstd::prelude::*;

verus! {

/// Why a plan could not be made.
#[derive(Clone, Copy, Debug, PartialEq, Eq, Structural)]
pub enum PlanError {
    /// The handle for the new account takes more than 253 bytes.
    HandleTooLong,
    /// The handle for the new account is not a handle.
    InvalidHandle,
}

impl PlanError {
    pub open spec fn label(self) -> Seq<char> {
        match self {
            PlanError::HandleTooLong => "Handle too long"@,
            PlanError::InvalidHandle => "Invalid handle"@,
        }
    }

    /// The fault in words.
    pub fn message(&self) -> (r: String)
        ensures
            r@ == self.label(),
    {
        match self {
            PlanError::HandleTooLong => "Handle too long".to_string(),
            PlanError::InvalidHandle => "Invalid handle".to_string(),
        }
    }
}

/// The verdict on a text that is offered as a handle: none where it is
/// one.
pub open spec fn handle_fault(handle: Seq<char>) -> Option<PlanError> {
    if vstd::utf8::encode_utf8(handle).len() > 253 {
        Some(PlanError::HandleTooLong)
    } else if !handle_syntax(handle) {
        Some(PlanError::InvalidHandle)
    } else {
        None
    }
}

/// The inputs of one migration. A plan holds secrets and has no printed
/// form.
#[derive(PartialEq, Eq)]
pub struct MigrationPlan {
    identifier: String,
    source_secret: String,
    destination_url: String,
    email: String,
    handle: String,
    destination_secret: String,
    invite_code: Option<String>,
    blob_page_limit: Option<u16>,
}

pub struct PlanView {
    /// The handle or DID of the account on the source server.
    pub identifier: Seq<char>,
    pub source_secret: Seq<char>,
    /// The address of the destination server.
    pub destination_url: Seq<char>,
    pub email: Seq<char>,
    /// The handle of the account on the destination server.
    pub handle: Seq<char>,
    pub destination_secret: Seq<char>,
    pub invite_code: Option<Seq<char>>,
    /// How many content IDs to ask for in one listing, if the caller cares.
    pub blob_page_limit: Option<u16>,
}

impl PlanView {
    /// The handle is one, and an invite code that is there is not empty.
    pub open spec fn well_formed(self) -> bool {
        &&& handle_syntax(self.handle)
        &&& self.invite_code matches Some(code) ==> code.len() > 0
    }
}

/// An invite code as typed: an empty line means that there is none.
pub open spec fn invite_code_of(typed: Seq<char>) -> Option<Seq<char>> {
    if typed.len() == 0 {
        None
    } else {
        Some(typed)
    }
}

impl View for MigrationPlan {
    type V = PlanView;

    closed spec fn view(&self) -> PlanView {
        PlanView {
            identifier: self.identifier@,
            source_secret: self.source_secret@,
            destination_url: self.destination_url@,
            email: self.email@,
            handle: self.handle@,
            destination_secret: self.destination_secret@,
            invite_code: self.invite_code.deep_view(),
            blob_page_limit: self.blob_page_limit,
        }
    }
}

impl MigrationPlan {
    /// Every plan is well-formed.
    #[verifier::type_invariant]
    pub open spec fn inv(self) -> bool {
        self@.well_formed()
    }

    /// Makes a plan from the operator's inputs. The plan is refused if and
    /// only if the handle for the new account is none. An empty invite code
    /// stands for no invite code.
    pub fn new(
        identifier: String,
        source_secret: String,
        destination_url: String,
        email: String,
        handle: String,
        destination_secret: String,
        invite_code: String,
        blob_page_limit: Option<u16>,
    ) -> (plan: Result<MigrationPlan, PlanError>)
        ensures
            plan is Ok <==> handle_syntax(handle@),
            plan is Err ==> Some(plan->Err_0) == handle_fault(handle@),
            plan is Ok ==> plan->Ok_0@ == (PlanView {
                identifier: identifier@,
                source_secret: source_secret@,
                destination_url: destination_url@,
                email: email@,
                handle: handle@,
                destination_secret: destination_secret@,
                invite_code: invite_code_of(invite_code@),
                blob_page_limit,
            }),
            plan is Ok ==> plan->Ok_0@.well_formed(),
    {
        if handle.as_str().as_bytes().len() > 253 {
            proof {
                if handle_syntax(handle@) {
                    lemma_handle_is_ascii(handle@);
                }
            }
            return Err(PlanError::HandleTooLong);
        }
        if !is_handle(handle.as_str()) {
            return Err(PlanError::InvalidHandle);
        }
        let invite_code = if invite_code.as_str().is_empty() {
            None
        } else {
            Some(invite_code)
        };
        Ok(
            MigrationPlan {
                identifier,
                source_secret,
                destination_url,
                email,
                handle,
                destination_secret,
                invite_code,
                blob_page_limit,
            },
        )
    }

    pub fn identifier(&self) -> (r: &String)
        ensures
            r@ == self@.identifier,
    {
        &self.identifier
    }

    pub fn source_secret(&self) -> (r: &String)
        ensures
            r@ == self@.source_secret,
    {
        &self.source_secret
    }

    pub fn destination_url(&self) -> (r: &String)
        ensures
            r@ == self@.destination_url,
    {
        &self.destination_url
    }

    pub fn email(&self) -> (r: &String)
        ensures
            r@ == self@.email,
    {
        &self.email
    }

    pub fn handle(&self) -> (r: &String)
        ensures
            r@ == self@.handle,
    {
        &self.handle
    }

    pub fn destination_secret(&self) -> (r: &String)
        ensures
            r@ == self@.destination_secret,
    {
        &self.destination_secret
    }

    pub fn invite_code(&self) -> (r: &Option<String>)
        ensures
            r.deep_view() == self@.invite_code,
    {
        &self.invite_code
    }

    pub fn blob_page_limit(&self) -> (r: Option<u16>)
        ensures
            r == self@.blob_page_limit,
    {
        self.blob_page_limit
    }
}

} // verus!
