//! Secret password container and the authorizer capability interface.

use crate::config::Config;
use crate::CoreError;
use vstd::prelude::*;

verus! {

/// Secret byte container: the wrapped buffer is zeroed when the value is
/// dropped, and its contents can only be read through an explicit exposure.
/// It holds a secrecy::Secret, which this struct keeps opaque: that type's
/// parameter is bound by a trait of its own crate, so the type cannot be
/// declared here directly.
#[verifier::external_body]
pub struct SecretBytes {
    inner: secrecy::Secret<Vec<u8>>,
}

/// Declares subtle::CtOption, the constant-time optional that carries the
/// secret together with its presence choice.
#[verifier::external_type_specification]
#[verifier::external_body]
#[verifier::reject_recursive_types(T)]
pub struct ExCtOption<T>(subtle::CtOption<T>);

/// The bytes a secret container wraps.
pub uninterp spec fn secret_bytes(secret: SecretBytes) -> Seq<u8>;

/// Whether a constant-time optional secret is present.
pub uninterp spec fn ct_present(option: subtle::CtOption<SecretBytes>) -> bool;

/// The secret bytes a constant-time optional stores. A value is stored even
/// when the optional is absent; it is then never exposed.
pub uninterp spec fn ct_bytes(option: subtle::CtOption<SecretBytes>) -> Seq<u8>;

impl SecretBytes {
    /// Relies on secrecy::Secret::new: the container takes ownership of
    /// exactly the given bytes.
    #[verifier::external_body]
    pub fn new(bytes: Vec<u8>) -> (result: Self)
        ensures
            secret_bytes(result) == bytes@,
    {
        SecretBytes { inner: secrecy::Secret::new(bytes) }
    }

    /// Relies on secrecy::ExposeSecret::expose_secret: a read-only view of
    /// exactly the stored bytes.
    #[verifier::external_body]
    pub fn expose_secret(&self) -> (result: &Vec<u8>)
        ensures
            result@ == secret_bytes(*self),
    {
        secrecy::ExposeSecret::expose_secret(&self.inner)
    }
}

/// Relies on subtle::CtOption::new and subtle::Choice::from: the result stores
/// the given secret, and is present exactly when the choice is one.
#[verifier::external_body]
fn ct_new(password: SecretBytes, is_known: bool) -> (result: subtle::CtOption<SecretBytes>)
    ensures
        ct_present(result) == is_known,
        ct_bytes(result) == secret_bytes(password),
{
    subtle::CtOption::new(password, subtle::Choice::from(is_known as u8))
}

/// Relies on subtle::CtOption::is_some, which returns the stored presence
/// choice without reading the secret.
#[verifier::external_body]
fn ct_is_some(option: &subtle::CtOption<SecretBytes>) -> (result: bool)
    ensures
        result == ct_present(*option),
{
    option.is_some().into()
}

/// Relies on subtle's From<CtOption<T>> for Option<T>: Some with the stored
/// value exactly when the presence choice is one.
#[verifier::external_body]
fn ct_into(option: subtle::CtOption<SecretBytes>) -> (result: Option<SecretBytes>)
    ensures
        match result {
            Some(secret) => ct_present(option) && secret_bytes(secret) == ct_bytes(option),
            None => !ct_present(option),
        },
{
    option.into()
}

/// What a password value amounts to: whether it is known, and the secret
/// bytes it carries.
pub struct PasswordModel {
    /// Whether a password was actually supplied.
    pub known: bool,
    /// The secret bytes; empty when no password was supplied.
    pub bytes: Seq<u8>,
}

/// A possibly-absent secret password whose presence is tested in constant
/// time: presence is carried by a dedicated constant-time flag, never by a
/// branch on the buffer's length or contents. The buffer of an unknown
/// password is pre-sized so that it cannot be told apart, by allocation size,
/// from one that held a short real password.
pub struct Password(subtle::CtOption<SecretBytes>);

impl View for Password {
    type V = PasswordModel;

    closed spec fn view(&self) -> PasswordModel {
        PasswordModel { known: ct_present(self.0), bytes: ct_bytes(self.0) }
    }
}

/// Reserved buffer capacity of an unknown password.
pub const UNKNOWN_CAPACITY: usize = 64;

impl Password {
    /// Builds a password from `password`, marked known exactly when
    /// `is_known` holds.
    pub fn new(password: SecretBytes, is_known: bool) -> (result: Self)
        ensures
            result@.known == is_known,
            result@.bytes == secret_bytes(password),
    {
        Password(ct_new(password, is_known))
    }

    /// Builds a known password that takes ownership of `password`.
    pub fn from_known(password: SecretBytes) -> (result: Self)
        ensures
            result@.known,
            result@.bytes == secret_bytes(password),
    {
        Self::new(password, true)
    }

    /// Builds an unknown password: no secret is carried, and the underlying
    /// buffer is pre-sized but logically empty.
    pub fn from_unknown() -> (result: Self)
        ensures
            !result@.known,
            result@.bytes == Seq::<u8>::empty(),
    {
        let buffer: Vec<u8> = Vec::with_capacity(UNKNOWN_CAPACITY);
        Self::new(SecretBytes::new(buffer), false)
    }

    /// Extracts the secret, consuming the container: Some exactly when the
    /// password is known.
    pub fn known(self) -> (result: Option<SecretBytes>)
        ensures
            match result {
                Some(secret) => self@.known && secret_bytes(secret) == self@.bytes,
                None => !self@.known,
            },
    {
        ct_into(self.0)
    }

    /// Whether a password was supplied. This is the sole observable
    /// predicate; it reveals existence, never content.
    pub fn is_known(&self) -> (result: bool)
        ensures
            result == self@.known,
    {
        ct_is_some(&self.0)
    }
}

impl Default for Password {
    /// The default password is the unknown one.
    fn default() -> (result: Self)
        ensures
            !result@.known,
            result@.bytes == Seq::<u8>::empty(),
    {
        Password::from_unknown()
    }
}

/// Capability interface between a signing service and an operator-facing
/// front-end. The service calls `setup` once, then, for each authorization
/// need, `wake` followed by one or more `password` calls (each call after the
/// first implying the previous password was rejected), and closes the round
/// with exactly one of `success`, `failure` or `sleep`.
pub trait Authorizer {
    /// Opaque payload describing what is being authorized.
    type Prompt;

    /// Success payload delivered when a round closes well.
    type Message: Default;

    /// Failure payload delivered when a round closes badly.
    type Error: Default;

    /// Retrieves the password from the authorizer. The only mandatory
    /// operation: it suspends the service until the front-end supplies a
    /// password or signals that it has none.
    fn password(&mut self) -> Result<Password, CoreError>;

    /// Runs one-time front-end preparation using the `config`.
    fn setup(&mut self, config: &Config) {
        let _ = config;
    }

    /// Notifies the front-end that a password is now wanted, carrying
    /// `prompt`. It must not wait for an answer: the answer arrives through
    /// `password`.
    fn wake(&mut self, prompt: Self::Prompt) {
        let _ = prompt;
    }

    /// Ends one authorization round, carrying the verdict.
    fn sleep(&mut self, message: Result<Self::Message, Self::Error>) {
        let _ = message;
    }

    /// Ends the round with a success payload.
    fn success(&mut self, message: Self::Message) {
        self.sleep(Ok(message));
    }

    /// Ends the round with a failure payload.
    fn failure(&mut self, error: Self::Error) {
        self.sleep(Err(error));
    }
}

} // verus!
