//! Databases: the paths of the database endpoints and the database models.

use crate::error::BuilderError;
use crate::query::slash_join;
use vstd::prelude::*;
use vstd::string::*;

verus! {

/// The path of the database API, which lists and creates databases.
pub const DB_SUFFIX: &'static str = "_api/database";

/// The path of the databases the current user can access.
pub const USER_SUFFIX: &'static str = "_api/database/user";

/// The path of the current database.
pub const CURRENT_SUFFIX: &'static str = "_api/database/current";

/// `_api/database/<name>`
pub open spec fn db_drop_path(name: Seq<char>) -> Seq<char> {
    "_api/database"@ + "/"@ + name
}

/// The path that drops the database `name`.
pub fn drop_suffix(name: &str) -> (r: String)
    ensures
        r@ == db_drop_path(name@),
{
    slash_join(DB_SUFFIX, name)
}

/// Database creation configuration
#[derive(Clone, Debug)]
pub struct Create {
    /// A valid database name
    pub name: String,
    /// Optional database options
    pub options: Option<Options>,
    /// Optional array of users to initially create for the new database.
    pub users: Option<Vec<User>>,
}

impl Create {
    /// A valid database name
    pub fn name(&self) -> (r: &String)
        ensures
            *r == self.name,
    {
        &self.name
    }

    /// Optional database options
    pub fn options(&self) -> (r: &Option<Options>)
        ensures
            *r == self.options,
    {
        &self.options
    }

    /// Optional array of users to initially create for the new database.
    pub fn users(&self) -> (r: &Option<Vec<User>>)
        ensures
            *r == self.users,
    {
        &self.users
    }
}

/// Builds a [`Create`]; `name` must be set.
#[derive(Clone, Debug)]
pub struct CreateBuilder {
    pub name: Option<String>,
    pub options: Option<Options>,
    pub users: Option<Vec<User>>,
}

impl CreateBuilder {
    /// A builder with nothing set.
    pub fn default() -> (r: Self)
        ensures
            r == (Self { name: None, options: None, users: None }),
    {
        CreateBuilder { name: None, options: None, users: None }
    }

    /// A valid database name
    pub fn name(self, v: &str) -> (r: Self)
        ensures
            r == (Self { name: r.name, ..self }),
            r.name matches Some(s) && s@ == v@,
    {
        Self { name: Some(String::from_str(v)), ..self }
    }

    /// Optional database options
    pub fn options(self, v: Options) -> (r: Self)
        ensures
            r == (Self { options: Some(v), ..self }),
    {
        Self { options: Some(v), ..self }
    }

    /// Optional array of users to initially create for the new database.
    pub fn users(self, v: Vec<User>) -> (r: Self)
        ensures
            r == (Self { users: Some(v), ..self }),
    {
        Self { users: Some(v), ..self }
    }

    /// The configuration, when every required field is set.
    pub fn build(self) -> (r: Result<Create, BuilderError>)
        ensures
            self.name is None ==> (r matches Err(BuilderError::UninitializedField(f)) && f@ == "name"@),
            self.name is Some ==> (r matches Ok(c) && c == (Create { name: self.name->0, options: self.options, users: self.users })),
    {
        let name = match self.name {
            Some(v) => v,
            None => return Err(BuilderError::UninitializedField("name")),
        };
        Ok(Create { name, options: self.options, users: self.users })
    }
}

/// Optional clustering configuration used during database creation
#[derive(Clone, Debug)]
pub struct Options {
    /// The sharding method for new collections: "", "flexible" or "single" (cluster only)
    pub sharding: Option<String>,
    /// The default replication factor of new collections (cluster only)
    pub replication_factor: Option<String>,
    /// The default write concern of new collections (cluster only)
    pub write_concern: Option<String>,
}

impl Options {
    /// The sharding method for new collections: "", "flexible" or "single" (cluster only)
    pub fn sharding(&self) -> (r: &Option<String>)
        ensures
            *r == self.sharding,
    {
        &self.sharding
    }

    /// The default replication factor of new collections (cluster only)
    pub fn replication_factor(&self) -> (r: &Option<String>)
        ensures
            *r == self.replication_factor,
    {
        &self.replication_factor
    }

    /// The default write concern of new collections (cluster only)
    pub fn write_concern(&self) -> (r: &Option<String>)
        ensures
            *r == self.write_concern,
    {
        &self.write_concern
    }
}

/// Builds a [`Options`].
#[derive(Clone, Debug)]
pub struct OptionsBuilder {
    pub sharding: Option<String>,
    pub replication_factor: Option<String>,
    pub write_concern: Option<String>,
}

impl OptionsBuilder {
    /// A builder with nothing set.
    pub fn default() -> (r: Self)
        ensures
            r == (Self { sharding: None, replication_factor: None, write_concern: None }),
    {
        OptionsBuilder { sharding: None, replication_factor: None, write_concern: None }
    }

    /// The sharding method for new collections: "", "flexible" or "single" (cluster only)
    pub fn sharding(self, v: &str) -> (r: Self)
        ensures
            r == (Self { sharding: r.sharding, ..self }),
            r.sharding matches Some(s) && s@ == v@,
    {
        Self { sharding: Some(String::from_str(v)), ..self }
    }

    /// The default replication factor of new collections (cluster only)
    pub fn replication_factor(self, v: &str) -> (r: Self)
        ensures
            r == (Self { replication_factor: r.replication_factor, ..self }),
            r.replication_factor matches Some(s) && s@ == v@,
    {
        Self { replication_factor: Some(String::from_str(v)), ..self }
    }

    /// The default write concern of new collections (cluster only)
    pub fn write_concern(self, v: &str) -> (r: Self)
        ensures
            r == (Self { write_concern: r.write_concern, ..self }),
            r.write_concern matches Some(s) && s@ == v@,
    {
        Self { write_concern: Some(String::from_str(v)), ..self }
    }

    /// The configuration, when every required field is set.
    pub fn build(self) -> (r: Result<Options, BuilderError>)
        ensures
            true ==> (r matches Ok(c) && c == (Options { sharding: self.sharding, replication_factor: self.replication_factor, write_concern: self.write_concern })),
    {
        Ok(Options { sharding: self.sharding, replication_factor: self.replication_factor, write_concern: self.write_concern })
    }
}

/// Optional user information used during database creation
#[derive(Clone, Debug)]
pub struct User {
    /// Login name of the user to be created.
    pub username: String,
    /// The user password
    pub password: String,
    /// Is the user account active?
    pub active: bool,
}

impl User {
    /// Login name of the user to be created.
    pub fn username(&self) -> (r: &String)
        ensures
            *r == self.username,
    {
        &self.username
    }

    /// The user password
    pub fn password(&self) -> (r: &String)
        ensures
            *r == self.password,
    {
        &self.password
    }

    /// Is the user account active?
    pub fn active(&self) -> (r: &bool)
        ensures
            *r == self.active,
    {
        &self.active
    }
}

/// Builds a [`User`]; `username`, `password` and `active` must be set.
#[derive(Clone, Debug)]
pub struct UserBuilder {
    pub username: Option<String>,
    pub password: Option<String>,
    pub active: Option<bool>,
}

impl UserBuilder {
    /// A builder with nothing set.
    pub fn default() -> (r: Self)
        ensures
            r == (Self { username: None, password: None, active: None }),
    {
        UserBuilder { username: None, password: None, active: None }
    }

    /// Login name of the user to be created.
    pub fn username(self, v: &str) -> (r: Self)
        ensures
            r == (Self { username: r.username, ..self }),
            r.username matches Some(s) && s@ == v@,
    {
        Self { username: Some(String::from_str(v)), ..self }
    }

    /// The user password
    pub fn password(self, v: &str) -> (r: Self)
        ensures
            r == (Self { password: r.password, ..self }),
            r.password matches Some(s) && s@ == v@,
    {
        Self { password: Some(String::from_str(v)), ..self }
    }

    /// Is the user account active?
    pub fn active(self, v: bool) -> (r: Self)
        ensures
            r == (Self { active: Some(v), ..self }),
    {
        Self { active: Some(v), ..self }
    }

    /// The configuration, when every required field is set.
    pub fn build(self) -> (r: Result<User, BuilderError>)
        ensures
            self.username is None ==> (r matches Err(BuilderError::UninitializedField(f)) && f@ == "username"@),
            self.username is Some && self.password is None ==> (r matches Err(BuilderError::UninitializedField(f)) && f@ == "password"@),
            self.username is Some && self.password is Some && self.active is None ==> (r matches Err(BuilderError::UninitializedField(f)) && f@ == "active"@),
            self.username is Some && self.password is Some && self.active is Some ==> (r matches Ok(c) && c == (User { username: self.username->0, password: self.password->0, active: self.active->0 })),
    {
        let username = match self.username {
            Some(v) => v,
            None => return Err(BuilderError::UninitializedField("username")),
        };
        let password = match self.password {
            Some(v) => v,
            None => return Err(BuilderError::UninitializedField("password")),
        };
        let active = match self.active {
            Some(v) => v,
            None => return Err(BuilderError::UninitializedField("active")),
        };
        Ok(User { username, password, active })
    }
}

/// Output when the current database is read
#[derive(Clone, Debug)]
pub struct Current {
    /// The name of the current database
    pub name: String,
    /// The id of the current database
    pub id: String,
    /// Is the current database the `_system` database
    pub is_system: bool,
    /// The filesystem path of the current database
    pub path: String,
    /// The default sharding method for collections created in this database
    pub sharding: Option<String>,
    /// The default replication factor for collections in this database
    pub replication_factor: Option<String>,
    /// The default write concern for collections in this database
    pub write_concern: Option<String>,
}

impl Current {
    /// The name of the current database
    pub fn name(&self) -> (r: &String)
        ensures
            *r == self.name,
    {
        &self.name
    }

    /// The id of the current database
    pub fn id(&self) -> (r: &String)
        ensures
            *r == self.id,
    {
        &self.id
    }

    /// Is the current database the `_system` database
    pub fn is_system(&self) -> (r: &bool)
        ensures
            *r == self.is_system,
    {
        &self.is_system
    }

    /// The filesystem path of the current database
    pub fn path(&self) -> (r: &String)
        ensures
            *r == self.path,
    {
        &self.path
    }

    /// The default sharding method for collections created in this database
    pub fn sharding(&self) -> (r: &Option<String>)
        ensures
            *r == self.sharding,
    {
        &self.sharding
    }

    /// The default replication factor for collections in this database
    pub fn replication_factor(&self) -> (r: &Option<String>)
        ensures
            *r == self.replication_factor,
    {
        &self.replication_factor
    }

    /// The default write concern for collections in this database
    pub fn write_concern(&self) -> (r: &Option<String>)
        ensures
            *r == self.write_concern,
    {
        &self.write_concern
    }
}

impl Default for Current {
    /// A sample of the current database: `test`, id `123`, not the system
    /// database, at path `abcdef`, with no cluster settings.
    fn default() -> (r: Self)
        ensures
            r.name@ == "test"@ && r.id@ == "123"@ && !r.is_system && r.path@ == "abcdef"@
                && r.sharding is None && r.replication_factor is None && r.write_concern is None,
    {
        Current {
            name: String::from_str("test"),
            id: String::from_str("123"),
            is_system: false,
            path: String::from_str("abcdef"),
            sharding: None,
            replication_factor: None,
            write_concern: None,
        }
    }
}

/// The path that drops the database `name` (`r`, what `drop_suffix`
/// gives): the name under `_api/database`.
pub proof fn lemma_db_drop_path(name: Seq<char>, r: Seq<char>)
    requires
        r == db_drop_path(name),
    ensures
        r == "_api/database"@ + "/"@ + name,
{
}

} // verus!
