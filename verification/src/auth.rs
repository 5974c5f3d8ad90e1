//! Administrator log-in: the submitted form, the table of users, and the
//! logged-in user.

use vstd::prelude::*;
use vstd::string::*;
use vstd::hash_map::StringHashMap;

verus! {

/// A submitted log-in form.
pub struct LoginForm {
    pub username: String,
    pub password: String,
}

impl Default for LoginForm {
    fn default() -> (r: Self)
        ensures
            r.username@ == Seq::<char>::empty(),
            r.password@ == Seq::<char>::empty(),
    {
        LoginForm { username: String::new(), password: String::new() }
    }
}

impl LoginForm {
    /// The name the form logs in as.
    pub fn username(&self) -> (r: &String)
        ensures
            *r == self.username,
    {
        &self.username
    }
}

/// The passwords that (user name, password) pairs set, later pairs
/// overriding earlier ones.
pub open spec fn password_table(users: Seq<(String, String)>) -> Map<Seq<char>, String>
    decreases users.len(),
{
    if users.len() == 0 {
        Map::empty()
    } else {
        password_table(users.drop_last()).insert(users.last().0@, users.last().1)
    }
}

/// The administrators: each user name with its password.
pub struct UserDatabase(StringHashMap<String>);

impl UserDatabase {
    /// The password stored under each user name.
    pub closed spec fn passwords(&self) -> Map<Seq<char>, String> {
        self.0@
    }

    /// The database of the given (user name, password) pairs; of pairs with
    /// the same name, the later one counts.
    pub fn new(users: Vec<(String, String)>) -> (r: Self)
        ensures
            r.passwords() == password_table(users@),
    {
        let mut m: StringHashMap<String> = StringHashMap::new();
        let mut i: usize = 0;
        while i < users.len()
            invariant
                i <= users@.len(),
                m@ == password_table(users@.subrange(0, i as int)),
            decreases users@.len() - i,
        {
            assert(users@.subrange(0, i + 1).drop_last() =~= users@.subrange(0, i as int));
            m.insert(users[i].0.clone(), users[i].1.clone());
            i = i + 1;
        }
        assert(users@.subrange(0, users@.len() as int) =~= users@);
        UserDatabase(m)
    }

    /// Whether the form names a known user and gives that user's password.
    pub fn login(&self, login: &LoginForm) -> (r: bool)
        ensures
            r == (self.passwords().contains_key(login.username@)
                && self.passwords()[login.username@]@ == login.password@),
    {
        match self.0.get(login.username.as_str()) {
            Some(stored) => *stored == login.password,
            None => false,
        }
    }
}

/// A logged-in administrator.
pub struct User(String);

impl User {
    /// The user's name.
    pub closed spec fn name(&self) -> Seq<char> {
        self.0@
    }

    /// The user that the session cookie names.
    pub fn new(name: String) -> (r: User)
        ensures
            r.name() == name@,
    {
        User(name)
    }

    /// The user's name.
    pub fn username(&self) -> (r: &String)
        ensures
            r@ == self.name(),
    {
        &self.0
    }
}

} // verus!
