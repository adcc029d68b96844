//! The user entity and its three operations: creation, profile update and
//! logical deletion.

use crate::domain::timestamp::Timestamp;
use crate::domain::timestamp::JST_OFFSET_SECS;
use vstd::prelude::*;
use vstd::string::StringExecFns;

verus! {

/// A user record.
#[derive(Clone, Debug)]
pub struct User {
    pub id: i64,
    pub uid: String,
    pub last_name: String,
    pub first_name: String,
    pub email: String,
    pub created_at: Timestamp,
    pub updated_at: Timestamp,
    pub deleted_at: Option<Timestamp>,
}

/// What a user record holds, with each string as the sequence of its
/// characters.
pub struct UserView {
    pub id: i64,
    pub uid: Seq<char>,
    pub last_name: Seq<char>,
    pub first_name: Seq<char>,
    pub email: Seq<char>,
    pub created_at: Timestamp,
    pub updated_at: Timestamp,
    pub deleted_at: Option<Timestamp>,
}

impl View for User {
    type V = UserView;

    open spec fn view(&self) -> UserView {
        UserView {
            id: self.id,
            uid: self.uid@,
            last_name: self.last_name@,
            first_name: self.first_name@,
            email: self.email@,
            created_at: self.created_at,
            updated_at: self.updated_at,
            deleted_at: self.deleted_at,
        }
    }
}

impl UserView {
    /// The record was not updated before it was created, nor deleted after
    /// its last update.
    pub open spec fn wf(self) -> bool {
        &&& !self.updated_at.before(self.created_at)
        &&& match self.deleted_at {
            Some(at) => !self.updated_at.before(at),
            None => true,
        }
    }

    /// The record as created at `now` from the four strings.
    pub open spec fn created(
        uid: Seq<char>,
        last_name: Seq<char>,
        first_name: Seq<char>,
        email: Seq<char>,
        now: Timestamp,
    ) -> UserView {
        UserView {
            id: 0,
            uid,
            last_name,
            first_name,
            email,
            created_at: now,
            updated_at: now,
            deleted_at: None,
        }
    }

    /// The record after its profile was replaced at `now`.
    pub open spec fn with_profile(
        self,
        last_name: Seq<char>,
        first_name: Seq<char>,
        email: Seq<char>,
        now: Timestamp,
    ) -> UserView {
        UserView { last_name, first_name, email, updated_at: now, ..self }
    }

    /// The record after it was marked as deleted at `now`.
    pub open spec fn deleted(self, now: Timestamp) -> UserView {
        UserView { updated_at: now, deleted_at: Some(now), ..self }
    }
}

/// The separator between two complaints about a profile.
pub open spec fn separator() -> Seq<char> {
    ", "@
}

/// The complaints about a profile, in field order: one for each of last
/// name, first name and email that is empty.
pub open spec fn profile_complaints(
    last_name: Seq<char>,
    first_name: Seq<char>,
    email: Seq<char>,
) -> Seq<Seq<char>> {
    let first: Seq<Seq<char>> = if last_name.len() == 0 {
        seq!["last_nameは必須です。"@]
    } else {
        seq![]
    };
    let second: Seq<Seq<char>> = if first_name.len() == 0 {
        seq!["first_nameは必須です。"@]
    } else {
        seq![]
    };
    let third: Seq<Seq<char>> = if email.len() == 0 {
        seq!["emailは必須です。"@]
    } else {
        seq![]
    };
    first + second + third
}

/// Each complaint is the name of its field followed by the same words.
pub proof fn law_complaints_name_their_fields()
    ensures
        "last_nameは必須です。"@ == "last_name"@ + "は必須です。"@,
        "first_nameは必須です。"@ == "first_name"@ + "は必須です。"@,
        "emailは必須です。"@ == "email"@ + "は必須です。"@,
{
    reveal_strlit("last_nameは必須です。");
    reveal_strlit("first_nameは必須です。");
    reveal_strlit("emailは必須です。");
    reveal_strlit("last_name");
    reveal_strlit("first_name");
    reveal_strlit("email");
    reveal_strlit("は必須です。");
    assert("last_nameは必須です。"@ =~= "last_name"@ + "は必須です。"@);
    assert("first_nameは必須です。"@ =~= "first_name"@ + "は必須です。"@);
    assert("emailは必須です。"@ =~= "email"@ + "は必須です。"@);
}

/// The parts written one after another with `sep` between neighbours.
pub open spec fn joined(parts: Seq<Seq<char>>, sep: Seq<char>) -> Seq<char>
    decreases parts.len(),
{
    if parts.len() == 0 {
        Seq::empty()
    } else if parts.len() == 1 {
        parts[0]
    } else {
        joined(parts.drop_last(), sep) + sep + parts.last()
    }
}

/// A profile is acceptable when none of its three fields is empty.
pub open spec fn profile_ok(last_name: Seq<char>, first_name: Seq<char>, email: Seq<char>) -> bool {
    last_name.len() > 0 && first_name.len() > 0 && email.len() > 0
}

/// Writes the parts one after another with `sep` between neighbours.
pub fn join_parts(parts: &Vec<&str>, sep: &str) -> (r: String)
    ensures
        r@ == joined(parts@.map_values(|p: &str| p@), sep@),
{
    let ghost texts = parts@.map_values(|p: &str| p@);
    let mut out = String::new();
    let mut i: usize = 0;
    while i < parts.len()
        invariant
            i <= parts.len(),
            texts == parts@.map_values(|p: &str| p@),
            out@ == joined(texts.take(i as int), sep@),
        decreases parts.len() - i,
    {
        proof {
            let upto = texts.take(i + 1);
            assert(upto.drop_last() == texts.take(i as int));
        }
        if i > 0 {
            out.append(sep);
        }
        out.append(parts[i]);
        i = i + 1;
    }
    proof {
        assert(texts.take(parts@.len() as int) == texts);
    }
    out
}

/// Checks a profile: `Ok` when no field is empty, else the complaints joined
/// with a comma and a space.
pub fn check_profile(last_name: &str, first_name: &str, email: &str) -> (r: Result<(), String>)
    ensures
        r.is_ok() == profile_ok(last_name@, first_name@, email@),
        match r {
            Ok(_) => true,
            Err(msg) => msg@ == joined(
                profile_complaints(last_name@, first_name@, email@),
                separator(),
            ),
        },
{
    let mut err_msgs: Vec<&str> = Vec::new();
    if last_name.is_empty() {
        err_msgs.push("last_nameは必須です。");
    }
    if first_name.is_empty() {
        err_msgs.push("first_nameは必須です。");
    }
    if email.is_empty() {
        err_msgs.push("emailは必須です。");
    }
    proof {
        assert(err_msgs@.map_values(|p: &str| p@) =~= profile_complaints(
            last_name@,
            first_name@,
            email@,
        ));
    }
    if err_msgs.len() > 0 {
        Err(join_parts(&err_msgs, ", "))
    } else {
        Ok(())
    }
}

impl User {
    /// A new user, created now in Japan Standard Time: not yet stored
    /// (`id` is 0), never updated since and not deleted.
    pub fn new(
        new_uid: String,
        new_last_name: String,
        new_first_name: String,
        new_email: String,
    ) -> (r: User)
        ensures
            r@ == UserView::created(
                new_uid@,
                new_last_name@,
                new_first_name@,
                new_email@,
                r.created_at,
            ),
            r.created_at == r.updated_at,
            r.deleted_at.is_none(),
            r.created_at.offset_secs == JST_OFFSET_SECS,
            r.created_at.wf(),
            r@.wf(),
    {
        User::new_at(new_uid, new_last_name, new_first_name, new_email, Timestamp::now_jst())
    }

    /// A new user created at `now`.
    pub fn new_at(
        new_uid: String,
        new_last_name: String,
        new_first_name: String,
        new_email: String,
        now: Timestamp,
    ) -> (r: User)
        ensures
            r@ == UserView::created(new_uid@, new_last_name@, new_first_name@, new_email@, now),
    {
        User {
            id: 0,
            uid: new_uid,
            last_name: new_last_name,
            first_name: new_first_name,
            email: new_email,
            created_at: now,
            updated_at: now,
            deleted_at: None,
        }
    }

    /// Replaces last name, first name and email and stamps the update with
    /// the current time in Japan Standard Time, unless one of the three is
    /// empty: then the user stays as it was and the complaints come back.
    pub fn update_profile(
        &mut self,
        last_name: String,
        first_name: String,
        email: String,
    ) -> (r: Result<(), String>)
        ensures
            r.is_ok() == profile_ok(last_name@, first_name@, email@),
            match r {
                Ok(_) => {
                    &&& final(self)@ == old(self)@.with_profile(
                        last_name@,
                        first_name@,
                        email@,
                        final(self).updated_at,
                    )
                    &&& final(self).updated_at.offset_secs == JST_OFFSET_SECS
                    &&& final(self).updated_at.wf()
                },
                Err(msg) => {
                    &&& *final(self) == *old(self)
                    &&& msg@ == joined(
                        profile_complaints(last_name@, first_name@, email@),
                        separator(),
                    )
                },
            },
    {
        match check_profile(last_name.as_str(), first_name.as_str(), email.as_str()) {
            Err(msg) => Err(msg),
            Ok(_) => {
                let now = Timestamp::now_jst();
                self.set_profile(last_name, first_name, email, now);
                Ok(())
            },
        }
    }

    /// `update_profile` with the time of the update given by the caller.
    pub fn update_profile_at(
        &mut self,
        last_name: String,
        first_name: String,
        email: String,
        now: Timestamp,
    ) -> (r: Result<(), String>)
        ensures
            r.is_ok() == profile_ok(last_name@, first_name@, email@),
            match r {
                Ok(_) => final(self)@ == old(self)@.with_profile(
                    last_name@,
                    first_name@,
                    email@,
                    now,
                ),
                Err(msg) => {
                    &&& *final(self) == *old(self)
                    &&& msg@ == joined(
                        profile_complaints(last_name@, first_name@, email@),
                        separator(),
                    )
                },
            },
    {
        match check_profile(last_name.as_str(), first_name.as_str(), email.as_str()) {
            Err(msg) => Err(msg),
            Ok(_) => {
                self.set_profile(last_name, first_name, email, now);
                Ok(())
            },
        }
    }

    fn set_profile(&mut self, last_name: String, first_name: String, email: String, now: Timestamp)
        ensures
            final(self)@ == old(self)@.with_profile(last_name@, first_name@, email@, now),
    {
        self.last_name = last_name;
        self.first_name = first_name;
        self.email = email;
        self.updated_at = now;
    }

    /// Marks the user as deleted now, in Japan Standard Time: the deletion
    /// and the last update carry the same time, and nothing else changes.
    pub fn set_delete(&mut self)
        ensures
            final(self)@ == old(self)@.deleted(final(self).updated_at),
            final(self).deleted_at == Some(final(self).updated_at),
            final(self).created_at == old(self).created_at,
            final(self).updated_at.offset_secs == JST_OFFSET_SECS,
            final(self).updated_at.wf(),
    {
        self.set_delete_at(Timestamp::now_jst());
    }

    /// `set_delete` with the time of the deletion given by the caller.
    pub fn set_delete_at(&mut self, now: Timestamp)
        ensures
            final(self)@ == old(self)@.deleted(now),
    {
        self.updated_at = now;
        self.deleted_at = Some(now);
    }
}

/// An update of the profile at a time not before the last update leaves the
/// record well-formed.
pub proof fn law_update_profile_keeps_wf(
    user: UserView,
    last_name: Seq<char>,
    first_name: Seq<char>,
    email: Seq<char>,
    now: Timestamp,
)
    requires
        user.wf(),
        !now.before(user.updated_at),
    ensures
        user.with_profile(last_name, first_name, email, now).wf(),
{
}

/// An update of the profile at a time after the last update leaves the
/// record well-formed and stamped strictly later than both its creation and
/// its previous update.
pub proof fn law_update_profile_advances(
    user: UserView,
    last_name: Seq<char>,
    first_name: Seq<char>,
    email: Seq<char>,
    now: Timestamp,
)
    requires
        user.wf(),
        user.updated_at.before(now),
    ensures
        user.updated_at.before(user.with_profile(last_name, first_name, email, now).updated_at),
        user.created_at.before(user.with_profile(last_name, first_name, email, now).updated_at),
        user.with_profile(last_name, first_name, email, now).wf(),
{
}

/// A deletion at a time not before the last update leaves the record
/// well-formed; a second one at a later time moves both stamps to it and
/// never touches the time of creation.
pub proof fn law_set_delete_repeats(user: UserView, first: Timestamp, second: Timestamp)
    requires
        user.wf(),
        !first.before(user.updated_at),
        !second.before(first),
    ensures
        user.deleted(first).wf(),
        user.deleted(first).deleted(second) == user.deleted(second),
        user.deleted(first).deleted(second).wf(),
        user.deleted(first).deleted(second).created_at == user.created_at,
{
}

} // verus!
