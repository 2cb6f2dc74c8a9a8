//! Users of the ticketing service, as stored in the relational backend.

use vstd::prelude::*;

use crate::database::Binding;
use crate::database::BindingModel;
use crate::database::Operation;

verus! {

/// Key of a row in the users table.
#[derive(Debug, Clone, Copy, PartialEq, Eq, Structural)]
pub struct UserId(pub u64);

/// One row of the users table.
#[derive(Debug)]
pub struct User {
    pub id: UserId,
    pub username: String,
    pub password_hash: String,
}

/// Mathematical image of a [`User`], with text abstracted to char sequences.
pub struct UserModel {
    pub id: UserId,
    pub username: Seq<char>,
    pub password_hash: Seq<char>,
}

impl View for User {
    type V = UserModel;

    open spec fn view(&self) -> UserModel {
        UserModel { id: self.id, username: self.username@, password_hash: self.password_hash@ }
    }
}

impl Clone for User {
    fn clone(&self) -> (res: Self)
        ensures
            res@ == self@,
    {
        User {
            id: self.id,
            username: self.username.clone(),
            password_hash: self.password_hash.clone(),
        }
    }
}

impl DeepView for User {
    type V = UserModel;

    open spec fn deep_view(&self) -> UserModel {
        self.view()
    }
}

/// Fetch one user by username.
#[derive(Debug)]
pub struct Get {
    pub username: String,
}

impl Get {
    /// The statement this query prepares.
    pub fn query(&self) -> (s: &'static str)
        ensures
            s@ == "SELECT * FROM users WHERE username = ?1"@,
    {
        "SELECT * FROM users WHERE username = ?1"
    }

    /// The values this query binds, in order.
    pub fn bindings(&self) -> (r: Vec<Binding>)
        ensures
            r.deep_view() =~= seq![BindingModel::Text(self.username@)],
    {
        let r = vec![Binding::Text(self.username.clone())];
        proof {
            assert(r.deep_view() =~= seq![BindingModel::Text(self.username@)]);
        }
        r
    }

    /// The closed-set operation this query submits as.
    pub fn into_operation(self) -> (op: Operation)
        ensures
            op matches Operation::GetUser { username } && username@ == self.username@,
    {
        Operation::GetUser { username: self.username }
    }
}

/// Insert a newly registered user.
#[derive(Debug)]
pub struct Insert {
    pub username: String,
    pub password: String,
}

impl Insert {
    /// The statement this query prepares.
    pub fn query(&self) -> (s: &'static str)
        ensures
            s@ == "INSERT INTO users (username, password_hash) VALUES (?1, ?2)"@,
    {
        "INSERT INTO users (username, password_hash) VALUES (?1, ?2)"
    }

    /// The values this query binds, in order.
    pub fn bindings(&self) -> (r: Vec<Binding>)
        ensures
            r.deep_view() =~= seq![
                BindingModel::Text(self.username@),
                BindingModel::Text(self.password@),
            ],
    {
        let r = vec![
            Binding::Text(self.username.clone()),
            Binding::Text(self.password.clone()),
        ];
        proof {
            assert(r.deep_view() =~= seq![
                BindingModel::Text(self.username@),
                BindingModel::Text(self.password@),
            ]);
        }
        r
    }

    /// The closed-set operation this query submits as.
    pub fn into_operation(self) -> (op: Operation)
        ensures
            op matches Operation::InsertUser { username, password } && username@ == self.username@
                && password@ == self.password@,
    {
        Operation::InsertUser { username: self.username, password: self.password }
    }
}

} // verus!
