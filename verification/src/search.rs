//! Where the scripts and the Python interpreter are looked for.
use vstd::prelude::*;
use vstd::string::*;

verus! {

/// What a look at a place gave.
#[derive(Debug, Clone, Copy, PartialEq, Eq, Structural)]
pub enum Probe {
    /// There is no such place.
    NoPlace,
    /// What is looked for is not there.
    Missing,
    /// What is looked for is there.
    Present,
}

/// A place where a script can be.
#[derive(Debug, Clone, Copy, PartialEq, Eq, Structural)]
pub enum ScriptPlace {
    /// With the resources of the app.
    Resources,
    /// Next to the executable.
    Executable,
    /// In the working directory.
    WorkingDir,
}

/// The place where a script is looked for after `place`.
pub open spec fn script_place_after(place: ScriptPlace) -> Option<ScriptPlace> {
    match place {
        ScriptPlace::Resources => Some(ScriptPlace::Executable),
        ScriptPlace::Executable => Some(ScriptPlace::WorkingDir),
        ScriptPlace::WorkingDir => None,
    }
}

/// How the search for a script goes on.
#[derive(Debug)]
pub enum ScriptStep {
    /// Look here.
    Look(ScriptPlace),
    /// It is here.
    Found(ScriptPlace),
    /// It is nowhere; this is the error.
    NotFound(String),
}

/// Starts the search for a script.
pub fn find_script() -> (r: ScriptStep)
    ensures
        r == ScriptStep::Look(ScriptPlace::Resources),
{
    ScriptStep::Look(ScriptPlace::Resources)
}

/// Goes on with the search for the script `name` after the look at `place`.
pub fn next_script_place(place: ScriptPlace, probe: Probe, name: &str) -> (r: ScriptStep)
    ensures
        if probe is Present {
            r == ScriptStep::Found(place)
        } else {
            match script_place_after(place) {
                Some(next) => r == ScriptStep::Look(next),
                None => r matches ScriptStep::NotFound(message) && message@ == name@
                    + " not found"@,
            }
        },
{
    if matches!(probe, Probe::Present) {
        return ScriptStep::Found(place);
    }
    match place {
        ScriptPlace::Resources => ScriptStep::Look(ScriptPlace::Executable),
        ScriptPlace::Executable => ScriptStep::Look(ScriptPlace::WorkingDir),
        ScriptPlace::WorkingDir => {
            let mut message = name.to_owned();
            message.append(" not found");
            ScriptStep::NotFound(message)
        },
    }
}

/// How early in the search a place comes.
pub open spec fn script_rank(place: ScriptPlace) -> nat {
    match place {
        ScriptPlace::Resources => 0,
        ScriptPlace::Executable => 1,
        ScriptPlace::WorkingDir => 2,
    }
}

/// Where the search for a script ends that has come to `place`, given what a look at each place
/// gives.
pub open spec fn script_search(look: spec_fn(ScriptPlace) -> Probe, place: ScriptPlace) -> Option<
    ScriptPlace,
>
    decreases 3 - script_rank(place),
{
    if look(place) is Present {
        Some(place)
    } else {
        match script_place_after(place) {
            Some(next) => script_search(look, next),
            None => None,
        }
    }
}

/// A script is taken from the first place that has it, and is not found only where no place
/// has it.
pub proof fn law_script_comes_from_the_first_place(
    look: spec_fn(ScriptPlace) -> Probe,
    other: ScriptPlace,
)
    ensures
        match script_search(look, ScriptPlace::Resources) {
            Some(found) => look(found) is Present && (look(other) is Present ==> script_rank(found)
                <= script_rank(other)),
            None => !(look(other) is Present),
        },
{
    reveal_with_fuel(script_search, 3);
}

/// A place where the Python interpreter can be.
#[derive(Debug, Clone, Copy, PartialEq, Eq, Structural)]
pub enum PythonPlace {
    /// The path in the settings.
    Configured,
    /// The virtual environment next to the script.
    BesideScript,
    /// The virtual environment in this directory above the executable; the one that holds the
    /// executable is 0.
    Above(usize),
    /// The virtual environment in the working directory.
    WorkingDir,
    /// The virtual environment that the app has set up.
    AppSupport,
    /// The interpreter of the system, which is not looked for.
    System,
}

/// Where the search for Python goes on after a look at `place` that did not find it there. The
/// directories above the executable are tried one after the other, as far as there are any.
pub open spec fn python_place_after(place: PythonPlace, probe: Probe) -> PythonPlace {
    match place {
        PythonPlace::Configured => PythonPlace::BesideScript,
        PythonPlace::BesideScript => PythonPlace::Above(0),
        PythonPlace::Above(n) => if probe is Missing && n < usize::MAX {
            PythonPlace::Above((n + 1) as usize)
        } else {
            PythonPlace::WorkingDir
        },
        PythonPlace::WorkingDir => PythonPlace::AppSupport,
        PythonPlace::AppSupport => PythonPlace::System,
        PythonPlace::System => PythonPlace::System,
    }
}

/// How the search for Python goes on.
#[derive(Debug, Clone, Copy, PartialEq, Eq, Structural)]
pub enum PythonStep {
    /// Look here.
    Look(PythonPlace),
    /// Take this one.
    Found(PythonPlace),
}

/// The search for Python goes on at `place`. The interpreter of the system is taken unseen.
pub open spec fn python_step_at(place: PythonPlace) -> PythonStep {
    if place is System {
        PythonStep::Found(place)
    } else {
        PythonStep::Look(place)
    }
}

/// Starts the search for Python, with the path in the settings if there is one.
pub fn find_python(configured_path: &str) -> (r: PythonStep)
    ensures
        r == PythonStep::Look(
            if configured_path@.len() > 0 {
                PythonPlace::Configured
            } else {
                PythonPlace::BesideScript
            },
        ),
{
    if configured_path.is_empty() {
        PythonStep::Look(PythonPlace::BesideScript)
    } else {
        PythonStep::Look(PythonPlace::Configured)
    }
}

/// Goes on with the search for Python after the look at `place`.
pub fn next_python_place(place: PythonPlace, probe: Probe) -> (r: PythonStep)
    ensures
        r == if probe is Present {
            PythonStep::Found(place)
        } else {
            python_step_at(python_place_after(place, probe))
        },
{
    if matches!(probe, Probe::Present) {
        return PythonStep::Found(place);
    }
    match place {
        PythonPlace::Configured => PythonStep::Look(PythonPlace::BesideScript),
        PythonPlace::BesideScript => PythonStep::Look(PythonPlace::Above(0)),
        PythonPlace::Above(n) => if matches!(probe, Probe::Missing) && n < usize::MAX {
            PythonStep::Look(PythonPlace::Above(n + 1))
        } else {
            PythonStep::Look(PythonPlace::WorkingDir)
        },
        PythonPlace::WorkingDir => PythonStep::Look(PythonPlace::AppSupport),
        PythonPlace::AppSupport => PythonStep::Found(PythonPlace::System),
        PythonPlace::System => PythonStep::Found(PythonPlace::System),
    }
}

/// How early in the search a place comes, where there are `depth` directories above the
/// executable.
pub open spec fn python_rank(place: PythonPlace, depth: nat) -> nat {
    match place {
        PythonPlace::Configured => 0,
        PythonPlace::BesideScript => 1,
        PythonPlace::Above(n) => if n < depth {
            2 + n as nat
        } else {
            2 + depth
        },
        PythonPlace::WorkingDir => 3 + depth,
        PythonPlace::AppSupport => 4 + depth,
        PythonPlace::System => 5 + depth,
    }
}

/// Where the search for Python ends that has come to `place`, given what a look at each place
/// gives and that there are `depth` directories above the executable.
pub open spec fn python_search(
    look: spec_fn(PythonPlace) -> Probe,
    place: PythonPlace,
    depth: nat,
) -> PythonPlace
    decreases 5 + depth - python_rank(place, depth),
    when depth <= usize::MAX && forall|n: usize|
        n >= depth ==> #[trigger] look(PythonPlace::Above(n)) is NoPlace
{
    if place is System || look(place) is Present {
        place
    } else {
        proof {
            if let PythonPlace::Above(n) = place {
                assert(n >= depth ==> look(PythonPlace::Above(n)) is NoPlace);
            }
        }
        python_search(look, python_place_after(place, look(place)), depth)
    }
}

/// The Python that is taken is the first one that is there: the one in the settings, the one
/// beside the script, the nearest above the executable, the one in the working directory, the
/// one that the app has set up, or else that of the system.
pub proof fn law_python_comes_from_the_first_place(
    look: spec_fn(PythonPlace) -> Probe,
    start: PythonPlace,
    depth: nat,
    other: PythonPlace,
)
    requires
        depth <= usize::MAX,
        forall|n: usize| n >= depth <==> #[trigger] look(PythonPlace::Above(n)) is NoPlace,
    ensures
        ({
            let found = python_search(look, start, depth);
            &&& found is System || look(found) is Present
            &&& look(other) is Present && python_rank(start, depth) <= python_rank(other, depth)
                ==> python_rank(found, depth) <= python_rank(other, depth)
        }),
    decreases 5 + depth - python_rank(start, depth),
{
    if !(start is System || look(start) is Present) {
        let next = python_place_after(start, look(start));
        if let PythonPlace::Above(n) = start {
            assert(n >= depth <==> look(PythonPlace::Above(n)) is NoPlace);
        }
        if let PythonPlace::Above(n) = other {
            assert(n >= depth ==> look(PythonPlace::Above(n)) is NoPlace);
        }
        assert(python_rank(next, depth) > python_rank(start, depth));
        if look(other) is Present && python_rank(start, depth) <= python_rank(other, depth) {
            if python_rank(other, depth) == python_rank(start, depth) {
                assert(other == start);
            }
            assert(python_rank(next, depth) <= python_rank(other, depth));
        }
        law_python_comes_from_the_first_place(look, next, depth, other);
    }
}

/// The search for a script goes from the resources of the app to the place of the executable, and
/// from there to the working directory, and then ends.
pub proof fn law_script_places_in_order(place: ScriptPlace)
    ensures
        script_place_after(place) == if place is Resources {
            Some(ScriptPlace::Executable)
        } else if place is Executable {
            Some(ScriptPlace::WorkingDir)
        } else {
            None
        },
{
}

/// The search for Python goes on to the next directory above the executable only where there was
/// one to look in; where a place is missing altogether, or the last one has been looked at, it
/// goes on elsewhere. The interpreter of the system is taken unseen, and nothing else is.
pub proof fn law_python_places_in_order(place: PythonPlace, probe: Probe)
    ensures
        ({
            let next = python_place_after(place, probe);
            &&& place is Configured ==> next is BesideScript
            &&& place is BesideScript ==> next == PythonPlace::Above(0)
            &&& place matches PythonPlace::Above(n) ==> (next == if probe is Missing && n
                < usize::MAX {
                PythonPlace::Above((n + 1) as usize)
            } else {
                PythonPlace::WorkingDir
            })
            &&& place is WorkingDir ==> next is AppSupport
            &&& place is AppSupport || place is System ==> next is System
            &&& python_step_at(place) == if place is System {
                PythonStep::Found(place)
            } else {
                PythonStep::Look(place)
            }
        }),
{
}

} // verus!
