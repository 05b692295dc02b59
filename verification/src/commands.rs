//! How validated request bodies become commands for the database layer.

use vstd::prelude::*;

use crate::crypto::password_hash_text;
use crate::dto::{AuthChallengeBody, InsertedNonce, InsertedUser, NewUser, RegisterBody};

verus! {

/// A command that the infrastructure layer can carry out.
pub trait InfraCommand {
    /// What the infrastructure layer returns on success.
    type Output;
}

/// A request body that turns into a command.
pub trait IntoCommand {
    type Command: InfraCommand;

    fn into_command(self) -> Self::Command;
}

/// Marks an executor as able to run step `S`.
pub trait ExecutorFor<S> {}

impl InfraCommand for AuthChallengeBody {
    type Output = InsertedNonce;
}

impl IntoCommand for AuthChallengeBody {
    type Command = Self;

    fn into_command(self) -> (r: Self)
        ensures
            r == self,
    {
        self
    }
}

impl InfraCommand for NewUser {
    type Output = InsertedUser;
}

/// The user record for a registration body: the password in its stored
/// form, everything else moved over.
pub open spec fn new_user_from(body: RegisterBody, user: NewUser) -> bool {
    &&& user.username == body.username
    &&& user.email == body.email
    &&& user.hashed_password@ == password_hash_text(body.password@)
    &&& user.ik_pub == body.ik_pub
    &&& user.ik_pub_ed == body.ik_pub_ed
    &&& user.spk_pub == body.spk_pub
    &&& user.spk_pub_sig == body.spk_pub_sig
    &&& user.otpks == body.otpks
}

/// The user record made from a registration carries every field of it over
/// unchanged, each into the field of the same name, except the password,
/// which it keeps as the text `hashed:` followed by the password.
pub proof fn lemma_new_user_keeps_fields(body: RegisterBody, user: NewUser)
    requires
        new_user_from(body, user),
    ensures
        user.username@ == body.username@,
        user.email@ == body.email@,
        user.hashed_password@ == "hashed:"@ + body.password@,
        user.ik_pub@ == body.ik_pub@,
        user.ik_pub_ed@ == body.ik_pub_ed@,
        user.spk_pub@ == body.spk_pub@,
        user.spk_pub_sig@ == body.spk_pub_sig@,
        user.otpks@ == body.otpks@,
{
}

impl IntoCommand for RegisterBody {
    type Command = NewUser;

    fn into_command(self) -> (r: NewUser)
        ensures
            new_user_from(self, r),
            r.username@ == self.username@,
            r.email@ == self.email@,
            r.hashed_password@ == "hashed:"@ + self.password@,
            r.ik_pub@ == self.ik_pub@,
            r.ik_pub_ed@ == self.ik_pub_ed@,
            r.spk_pub@ == self.spk_pub@,
            r.spk_pub_sig@ == self.spk_pub_sig@,
            r.otpks@ == self.otpks@,
    {
        let hashed_password = self.password.hash();
        NewUser {
            username: self.username,
            email: self.email,
            hashed_password,
            ik_pub: self.ik_pub,
            ik_pub_ed: self.ik_pub_ed,
            spk_pub: self.spk_pub,
            spk_pub_sig: self.spk_pub_sig,
            otpks: self.otpks,
        }
    }
}

} // verus!
