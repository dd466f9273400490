//! Automation profiles: commands prepared on the PC that a phone may start by id.

use vstd::prelude::*;
use crate::outside::{is_uuid_v4_text, new_uuid_text};
use crate::search::{first_index, lemma_first_index_at, lemma_first_index_none};
use crate::launch::{copy_strings, launch_of, launches, texts, Launch};
use crate::protocol::{ServerResponse, is_refusal};
use crate::text::{concat2, concat3, str_eq};

verus! {

/// What a profile starts.
#[derive(Clone, Debug)]
pub enum ProfileKind {
    /// A `.bat` / `.cmd` file.
    RunBat { path: String },
    /// An executable with arguments.
    RunExe { path: String, args: Vec<String> },
    /// A PowerShell script kept on the PC.
    PowerShell { script: String },
}

/// A named automation profile.
#[derive(Clone, Debug)]
pub struct Profile {
    pub id: String,
    pub name: String,
    pub description: Option<String>,
    pub kind: ProfileKind,
}

impl Profile {
    /// A profile with a fresh random id.
    pub fn new(name: String, description: Option<String>, kind: ProfileKind) -> (p: Self)
        ensures
            p.name == name,
            p.description == description,
            p.kind == kind,
            is_uuid_v4_text(p.id@),
    {
        Profile { id: new_uuid_text(), name, description, kind }
    }
}

/// The profile predicate: its id is `id`.
pub open spec fn has_profile_id(id: Seq<char>) -> spec_fn(Profile) -> bool {
    |p: Profile| p.id@ == id
}

/// The profile predicate: its id is not `id`.
pub open spec fn lacks_profile_id(id: Seq<char>) -> spec_fn(Profile) -> bool {
    |p: Profile| p.id@ != id
}

/// The first profile whose id is `profile_id`.
pub fn find_profile<'a>(profiles: &'a Vec<Profile>, profile_id: &str) -> (r: Option<&'a Profile>)
    ensures
        match first_index(profiles@, has_profile_id(profile_id@)) {
            Some(i) => r == Some(&profiles@[i]),
            None => r is None,
        },
{
    let mut i: usize = 0;
    while i < profiles.len()
        invariant
            i <= profiles@.len(),
            forall|j: int| 0 <= j < i ==> !has_profile_id(profile_id@)(#[trigger] profiles@[j]),
        decreases profiles@.len() - i,
    {
        if str_eq(profiles[i].id.as_str(), profile_id) {
            proof { lemma_first_index_at(profiles@, has_profile_id(profile_id@), i as int); }
            return Some(&profiles[i]);
        }
        i = i + 1;
    }
    proof { lemma_first_index_none(profiles@, has_profile_id(profile_id@)); }
    None
}

/// Keep the profiles whose id differs from `profile_id`.
pub fn remove_profile(profiles: &mut Vec<Profile>, profile_id: &str)
    ensures
        final(profiles)@ == old(profiles)@.filter(lacks_profile_id(profile_id@)),
{
    let ghost all = profiles@;
    let mut rest: Vec<Profile> = Vec::new();
    std::mem::swap(profiles, &mut rest);
    let mut kept: Vec<Profile> = Vec::new();
    let ghost mut done: int = 0;
    while rest.len() > 0
        invariant
            0 <= done <= all.len(),
            rest@ == all.subrange(done, all.len() as int),
            kept@ == all.subrange(0, done).filter(lacks_profile_id(profile_id@)),
        decreases rest@.len(),
    {
        let p = rest.remove(0);
        proof {
            assert(all.subrange(0, done + 1) == all.subrange(0, done).push(p));
            all.subrange(0, done).lemma_filter_push(p, lacks_profile_id(profile_id@));
        }
        if !str_eq(p.id.as_str(), profile_id) {
            kept.push(p);
        }
        proof {
            done = done + 1;
            assert(rest@ == all.subrange(done, all.len() as int));
        }
    }
    proof { assert(all.subrange(0, all.len() as int) == all); }
    *profiles = kept;
}

/// How a profile is started and reported.
pub struct ProfileLaunch {
    pub launch: Launch,
    /// Put in front of the spawn error.
    pub error_prefix: String,
    /// The message once the process has started.
    pub success: String,
}

/// How a profile is started: the process and the messages.
pub open spec fn launch_of_profile(profile: Profile, pl: ProfileLaunch) -> bool {
    match profile.kind {
        ProfileKind::RunBat { path } => launches(pl.launch, "cmd"@, seq!["/c"@, path@])
            && pl.error_prefix@ == "Ошибка запуска bat: "@ && pl.success@ == "Запущено: "@ + profile.name@,
        ProfileKind::RunExe { path, args } => pl.launch.program@ == path@ && texts(pl.launch.args@) == texts(args@)
            && pl.error_prefix@ == "Ошибка запуска exe: "@ && pl.success@ == "Запущено: "@ + profile.name@,
        ProfileKind::PowerShell { script } => launches(pl.launch, "powershell"@, seq!["-NoProfile"@, "-NonInteractive"@, "-Command"@, script@])
            && pl.error_prefix@ == "Ошибка PowerShell: "@ && pl.success@ == "Выполнено: "@ + profile.name@,
    }
}

/// How to start a profile.
pub fn launch_for(profile: &Profile) -> (pl: ProfileLaunch)
    ensures
        launch_of_profile(*profile, pl),
{
    match &profile.kind {
        ProfileKind::RunBat { path } => {
            let args: [&str; 2] = ["/c", path.as_str()];
            assert(args@.map_values(|s: &str| s@) =~= seq!["/c"@, path@]);
            ProfileLaunch {
                launch: launch_of("cmd", &args),
                error_prefix: String::from_str("Ошибка запуска bat: "),
                success: concat2("Запущено: ", profile.name.as_str()),
            }
        },
        ProfileKind::RunExe { path, args } => ProfileLaunch {
            launch: Launch { program: path.clone(), args: copy_strings(args) },
            error_prefix: String::from_str("Ошибка запуска exe: "),
            success: concat2("Запущено: ", profile.name.as_str()),
        },
        ProfileKind::PowerShell { script } => {
            let args: [&str; 4] = ["-NoProfile", "-NonInteractive", "-Command", script.as_str()];
            assert(args@.map_values(|s: &str| s@) =~= seq!["-NoProfile"@, "-NonInteractive"@, "-Command"@, script@]);
            ProfileLaunch {
                launch: launch_of("powershell", &args),
                error_prefix: String::from_str("Ошибка PowerShell: "),
                success: concat2("Выполнено: ", profile.name.as_str()),
            }
        },
    }
}

/// What `run` does next.
pub enum RunStep {
    /// Send this response.
    Respond(ServerResponse),
    /// Start this process, then call `launch_response`.
    Start(ProfileLaunch),
}

/// Start the profile `profile_id` from the profiles as read from the store:
/// a reading error or an unknown id is reported; otherwise the first
/// profile with that id is started.
pub fn run(loaded: Result<Vec<Profile>, String>, profile_id: &str) -> (step: RunStep)
    ensures
        match loaded {
            Err(e) => step matches RunStep::Respond(r) && is_refusal(r, "Не удалось загрузить профили: "@ + e@),
            Ok(profiles) => match first_index(profiles@, has_profile_id(profile_id@)) {
                None => step matches RunStep::Respond(r) && is_refusal(r, "Профиль '"@ + profile_id@ + "' не найден"@),
                Some(i) => step matches RunStep::Start(pl) && launch_of_profile(profiles@[i], pl),
            },
        },
{
    match loaded {
        Err(e) => RunStep::Respond(ServerResponse::err(concat2("Не удалось загрузить профили: ", e.as_str()))),
        Ok(profiles) => match find_profile(&profiles, profile_id) {
            None => RunStep::Respond(ServerResponse::err(concat3("Профиль '", profile_id, "' не найден"))),
            Some(p) => RunStep::Start(launch_for(p)),
        },
    }
}

/// The answer once the profile's process was spawned (or not).
pub fn launch_response(pl: ProfileLaunch, spawned: Result<(), String>) -> (r: ServerResponse)
    ensures
        match spawned {
            Ok(_) => r.ok && r.output == Some(pl.success) && r.error is None && r.data is None,
            Err(e) => is_refusal(r, pl.error_prefix@ + e@),
        },
{
    match spawned {
        Ok(_) => ServerResponse::ok_output(pl.success),
        Err(e) => ServerResponse::err(concat2(pl.error_prefix.as_str(), e.as_str())),
    }
}

/// Law (deletion): once the profiles with an id are deleted, running that id
/// finds no profile.
pub proof fn law_deleted_profile_not_found(profiles: Seq<Profile>, profile_id: Seq<char>)
    ensures
        first_index(profiles.filter(lacks_profile_id(profile_id)), has_profile_id(profile_id)) is None,
{
    let f = profiles.filter(lacks_profile_id(profile_id));
    assert forall|j: int| 0 <= j < f.len() implies !has_profile_id(profile_id)(#[trigger] f[j]) by {
        profiles.lemma_filter_pred(lacks_profile_id(profile_id), j);
    }
    lemma_first_index_none(f, has_profile_id(profile_id));
}

} // verus!
