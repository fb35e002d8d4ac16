//! Giving up the privileges of root once the sockets are bound.
use vstd::prelude::*;
use vstd::string::*;

use crate::text::chars_of;

verus! {

/// The user that the server runs as where none is configured.
pub const DEFAULT_USER: &'static str = "nobody";

/// The group that the server runs as where none is configured.
pub const DEFAULT_GROUP: &'static str = "nobody";

/// The real and effective ids of the process.
#[derive(Clone, Copy, Debug, PartialEq, Eq, Structural)]
pub struct ProcessIds {
    pub uid: u32,
    pub gid: u32,
    pub euid: u32,
    pub egid: u32,
}

impl ProcessIds {
    /// Whether the process has the privileges of root.
    pub open spec fn is_root(self) -> bool {
        self.uid == 0 || self.euid == 0
    }
}

/// The accounts whose ids are to be looked up.
#[derive(Clone, Copy, Debug, PartialEq, Eq)]
pub struct AccountRequest<'a> {
    pub user: &'a str,
    pub group: &'a str,
}

/// What a process does about its privileges.
#[derive(Clone, Copy, Debug, PartialEq, Eq)]
pub enum PrivilegeStep<'a> {
    /// Stay as it is.
    Keep,
    /// Look up the accounts to change to.
    LookUp(AccountRequest<'a>),
}

/// A change of an id of the process.
#[derive(Clone, Copy, Debug, PartialEq, Eq, Structural)]
pub enum IdChange {
    SetGid(u32),
    SetUid(u32),
}

/// Whether a name can be handed to the system: it ends names at a zero byte.
pub open spec fn is_system_name(name: Seq<char>) -> bool {
    !name.contains('\0')
}

fn system_name(name: &str) -> (res: bool)
    ensures
        res == is_system_name(name@),
{
    let chars = chars_of(name);
    let mut i: usize = 0;
    while i < chars.len()
        invariant
            i <= chars@.len(),
            chars@ == name@,
            forall|k: int| 0 <= k < i ==> chars@[k] != '\0',
        decreases chars@.len() - i,
    {
        if chars[i] == '\0' {
            return false;
        }
        i = i + 1;
    }
    true
}

/// Decides whether privileges are dropped: they are where the process runs as root. An error that
/// prevents it halts the server.
pub fn check_drop_privs<'a>(ids: ProcessIds, user: &'a str, group: &'a str) -> (res: Result<
    PrivilegeStep<'a>,
    String,
>)
    ensures
        match res {
            Ok(PrivilegeStep::Keep) => !ids.is_root(),
            Ok(PrivilegeStep::LookUp(request)) => {
                &&& ids.is_root()
                &&& is_system_name(user@)
                &&& is_system_name(group@)
                &&& request.user@ == user@
                &&& request.group@ == group@
            },
            Err(text) => {
                &&& ids.is_root()
                &&& if !is_system_name(user@) {
                    text@ == "unable to create CString for user "@ + user@
                } else {
                    &&& !is_system_name(group@)
                    &&& text@ == "unable to create CString for group "@ + group@ + ". Exiting."@
                }
            },
        },
{
    if ids.uid != 0 && ids.euid != 0 {
        return Ok(PrivilegeStep::Keep);
    }
    if !system_name(user) {
        let mut text = "unable to create CString for user ".to_string();
        text.append(user);
        return Err(text);
    }
    if !system_name(group) {
        let mut text = "unable to create CString for group ".to_string();
        text.append(group);
        text.append(". Exiting.");
        return Err(text);
    }
    Ok(PrivilegeStep::LookUp(AccountRequest { user, group }))
}

impl<'a> AccountRequest<'a> {
    /// The changes that make the process run as the accounts that were looked up. The group comes
    /// first: once the user has changed, the process may no longer change its group.
    pub fn found(self, uid: Option<u32>, gid: Option<u32>) -> (res: Result<Vec<IdChange>, String>)
        ensures
            match res {
                Ok(changes) => uid is Some && gid is Some && changes@ == seq![
                    IdChange::SetGid(gid->0),
                    IdChange::SetUid(uid->0),
                ],
                Err(text) => if uid is None {
                    text@ == "unable to lookup user '"@ + self.user@ + "'. Exiting."@
                } else {
                    &&& gid is None
                    &&& text@ == "unable to lookup group '"@ + self.group@ + "'. Exiting."@
                },
            },
    {
        let uid = match uid {
            Some(uid) => uid,
            None => {
                let mut text = "unable to lookup user '".to_string();
                text.append(self.user);
                text.append("'. Exiting.");
                return Err(text);
            },
        };
        let gid = match gid {
            Some(gid) => gid,
            None => {
                let mut text = "unable to lookup group '".to_string();
                text.append(self.group);
                text.append("'. Exiting.");
                return Err(text);
            },
        };
        let mut changes: Vec<IdChange> = Vec::new();
        changes.push(IdChange::SetGid(gid));
        changes.push(IdChange::SetUid(uid));
        proof {
            assert(changes@ =~= seq![IdChange::SetGid(gid), IdChange::SetUid(uid)]);
        }
        Ok(changes)
    }
}

/// Whether the process runs as the accounts, by what the system said of both changes.
pub fn ids_changed(setgid_rc: i32, setuid_rc: i32) -> (res: Result<(), String>)
    ensures
        match res {
            Ok(_) => setgid_rc >= 0 && setuid_rc >= 0,
            Err(text) => if setgid_rc < 0 {
                text@ == "unable to set gid. Exiting."@
            } else {
                setuid_rc < 0 && text@ == "unable to set uid. Exiting."@
            },
        },
{
    if setgid_rc < 0 {
        return Err("unable to set gid. Exiting.".to_string());
    }
    if setuid_rc < 0 {
        return Err("unable to set uid. Exiting.".to_string());
    }
    Ok(())
}

/// A process keeps its privileges just where neither its real nor its effective user is root. One
/// that runs as root looks up the accounts that were asked for, unless one of their names holds a
/// zero byte: then it fails.
pub proof fn root_changes_its_accounts<'a>(
    ids: ProcessIds,
    user: &'a str,
    group: &'a str,
    res: Result<PrivilegeStep<'a>, String>,
)
    requires
        call_ensures(check_drop_privs, (ids, user, group), res),
    ensures
        ids.uid != 0 && ids.euid != 0 <==> res matches Ok(PrivilegeStep::Keep),
        res is Err <==> (ids.uid == 0 || ids.euid == 0) && (user@.contains('\0')
            || group@.contains('\0')),
        res matches Ok(PrivilegeStep::LookUp(request)) ==> request.user@ == user@
            && request.group@ == group@,
        res matches Err(text) ==> text@ == if user@.contains('\0') {
            "unable to create CString for user "@ + user@
        } else {
            "unable to create CString for group "@ + group@ + ". Exiting."@
        },
{
}

/// A process changes to the accounts that were found, the group before the user, and only where
/// both were found; and it goes on only where the system refused neither change.
pub proof fn both_accounts_are_changed_to<'a>(
    request: AccountRequest<'a>,
    uid: Option<u32>,
    gid: Option<u32>,
    found: Result<Vec<IdChange>, String>,
    setgid_rc: i32,
    setuid_rc: i32,
    changed: Result<(), String>,
)
    requires
        call_ensures(AccountRequest::found, (request, uid, gid), found),
        call_ensures(ids_changed, (setgid_rc, setuid_rc), changed),
    ensures
        found is Ok <==> uid is Some && gid is Some,
        found matches Ok(changes) ==> changes@.len() == 2 && changes@[0] == IdChange::SetGid(gid->0)
            && changes@[1] == IdChange::SetUid(uid->0),
        changed is Ok <==> setgid_rc >= 0 && setuid_rc >= 0,
{
}

} // verus!
