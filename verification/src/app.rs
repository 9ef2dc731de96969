//! Applications: the registry that owns their state, the handles that name
//! them, and the delegate that is told of their launch and termination.

use vstd::prelude::*;
use crate::version::Version;
use crate::window::Window;

verus! {

/// The handle of an application: its place in the registry that made it.
pub type App = usize;

/// What an application is told of its own life.
pub trait AppDelegate {
    /// The application has been set up and is about to serve events.
    fn application_did_finish_launching(&self);

    /// The application is about to end.
    fn application_will_terminate(&self);
}

/// Where an application stands in its life.
#[derive(Debug, Clone, Copy, PartialEq, Eq, Structural)]
pub enum Phase {
    /// Made, and not run yet.
    Created,
    /// Its launch has been announced to the delegate.
    Running,
    /// Its termination has been announced to the delegate.
    Terminated,
}

/// The mathematical state of one application.
pub struct AppModel {
    pub title: Seq<char>,
    pub description: Seq<char>,
    pub developer: Seq<char>,
    pub version: Version,
    pub delegate: Option<Box<dyn AppDelegate>>,
    pub windows: Seq<Window>,
    pub phase: Phase,
}

struct RawApp {
    title: String,
    description: String,
    developer: String,
    version: Version,
    delegate: Option<Box<dyn AppDelegate>>,
    windows: Vec<Window>,
    phase: Phase,
}

impl View for RawApp {
    type V = AppModel;

    closed spec fn view(&self) -> AppModel {
        AppModel {
            title: self.title@,
            description: self.description@,
            developer: self.developer@,
            version: self.version,
            delegate: self.delegate,
            windows: self.windows@,
            phase: self.phase,
        }
    }
}

/// The owner of every application's state. Its view is the sequence of the
/// applications made so far; a handle is an index into it.
pub struct AppRegistry {
    apps: Vec<RawApp>,
}

impl View for AppRegistry {
    type V = Seq<AppModel>;

    closed spec fn view(&self) -> Seq<AppModel> {
        Seq::new(self.apps@.len(), |i: int| self.apps@[i]@)
    }
}

/// An application as `create_app` makes it.
pub open spec fn new_app() -> AppModel {
    AppModel {
        title: "NanoKit Application"@,
        description: "A NanoKit application"@,
        developer: "NanoKit"@,
        version: Version { major: 1, minor: 0, sub: 0 },
        delegate: None,
        windows: Seq::empty(),
        phase: Phase::Created,
    }
}

/// The status that running an application returns: 0 with a delegate, -1
/// without one.
pub open spec fn run_status(m: AppModel) -> i32 {
    if m.delegate is Some {
        0i32
    } else {
        -1i32
    }
}

/// Running an application announces its launch: it has a delegate and has
/// not been run before.
pub open spec fn announces_launch(m: AppModel) -> bool {
    m.delegate is Some && m.phase is Created
}

/// An application after it was run.
pub open spec fn after_run(m: AppModel) -> AppModel {
    if announces_launch(m) {
        AppModel { phase: Phase::Running, ..m }
    } else {
        m
    }
}

/// A shutdown signal is announced to the delegate: the application is
/// running.
pub open spec fn announces_termination(m: AppModel) -> bool {
    m.delegate is Some && m.phase is Running
}

/// An application after the platform signalled its shutdown.
pub open spec fn after_terminate(m: AppModel) -> AppModel {
    if announces_termination(m) {
        AppModel { phase: Phase::Terminated, ..m }
    } else {
        m
    }
}

impl AppRegistry {
    /// A registry without applications.
    pub fn new() -> (reg: AppRegistry)
        ensures
            reg@ == Seq::<AppModel>::empty(),
    {
        let reg = AppRegistry { apps: Vec::new() };
        assert(reg@ =~= Seq::<AppModel>::empty());
        reg
    }

    /// The handle names an application of this registry.
    pub open spec fn has(&self, app: App) -> bool {
        app < self@.len()
    }

    /// The state of the application that the handle names.
    pub open spec fn app(&self, app: App) -> AppModel
        recommends
            self.has(app),
    {
        self@[app as int]
    }

    /// Tells whether the handle names an application of this registry.
    pub fn is_app(&self, app: App) -> (r: bool)
        ensures
            r == self.has(app),
    {
        app < self.apps.len()
    }

    /// The number of applications made so far.
    pub fn len(&self) -> (n: usize)
        ensures
            n == self@.len(),
    {
        self.apps.len()
    }
}

/// Makes an application with the default title, description, developer and
/// version, no delegate and no window. Its handle is the next free one;
/// the applications made before are as they were.
pub fn create_app(reg: &mut AppRegistry) -> (app: App)
    ensures
        app == old(reg)@.len(),
        final(reg)@ == old(reg)@.push(new_app()),
{
    let raw_app = RawApp {
        title: "NanoKit Application".to_owned(),
        description: "A NanoKit application".to_owned(),
        developer: "NanoKit".to_owned(),
        version: Version { major: 1, minor: 0, sub: 0 },
        delegate: None,
        windows: Vec::new(),
        phase: Phase::Created,
    };
    let app = reg.apps.len();
    reg.apps.push(raw_app);
    assert(reg@ =~= old(reg)@.push(new_app()));
    app
}

/// Runs an application.
///
/// Without a delegate this does nothing and returns -1. With one it
/// returns 0, the status of a normal exit, and the caller is to serve the
/// platform's events until the platform signals shutdown; the delegate is
/// told of the launch first, unless the application has been run before.
pub fn run_app(reg: &mut AppRegistry, app: App) -> (status: i32)
    requires
        old(reg).has(app),
    ensures
        status == run_status(old(reg).app(app)),
        final(reg)@ == old(reg)@.update(app as int, after_run(old(reg).app(app))),
{
    let raw_app = &mut reg.apps[app];
    match &raw_app.delegate {
        None => {
            assert(reg@ =~= old(reg)@.update(app as int, after_run(old(reg).app(app))));
            -1
        },
        Some(delegate) => {
            match raw_app.phase {
                Phase::Created => {
                    delegate.application_did_finish_launching();
                    raw_app.phase = Phase::Running;
                },
                _ => {},
            }
            assert(reg@ =~= old(reg)@.update(app as int, after_run(old(reg).app(app))));
            0
        },
    }
}

/// Takes the platform's shutdown signal for an application. Returns
/// whether the delegate was told of the termination, which happens once,
/// for an application that is running.
pub fn terminate_app(reg: &mut AppRegistry, app: App) -> (announced: bool)
    requires
        old(reg).has(app),
    ensures
        announced == announces_termination(old(reg).app(app)),
        final(reg)@ == old(reg)@.update(app as int, after_terminate(old(reg).app(app))),
{
    let raw_app = &mut reg.apps[app];
    let mut announced = false;
    match &raw_app.delegate {
        None => {},
        Some(delegate) => {
            match raw_app.phase {
                Phase::Running => {
                    delegate.application_will_terminate();
                    raw_app.phase = Phase::Terminated;
                    announced = true;
                },
                _ => {},
            }
        },
    }
    assert(reg@ =~= old(reg)@.update(app as int, after_terminate(old(reg).app(app))));
    announced
}

/// Where the application stands in its life.
pub fn get_app_phase(reg: &AppRegistry, app: App) -> (phase: Phase)
    requires
        reg.has(app),
    ensures
        phase == reg.app(app).phase,
{
    reg.apps[app].phase
}

/// The applications after one of them was given a title.
pub open spec fn titled(apps: Seq<AppModel>, app: App, title: Seq<char>) -> Seq<AppModel>
    recommends
        app < apps.len(),
{
    apps.update(app as int, AppModel { title, ..apps[app as int] })
}

/// The applications after one of them was given several titles in turn.
pub open spec fn titled_in_turn(apps: Seq<AppModel>, app: App, titles: Seq<Seq<char>>) -> Seq<
    AppModel,
>
    decreases titles.len(),
{
    if titles.len() == 0 {
        apps
    } else {
        titled(titled_in_turn(apps, app, titles.drop_last()), app, titles.last())
    }
}

/// Gives the application a title.
pub fn set_app_title(reg: &mut AppRegistry, app: App, title: &str)
    requires
        old(reg).has(app),
    ensures
        final(reg)@ == titled(old(reg)@, app, title@),
{
    reg.apps[app].title = title.to_owned();
    assert(reg@ =~= titled(old(reg)@, app, title@));
}

/// The application's title.
pub fn get_app_title(reg: &AppRegistry, app: App) -> (title: String)
    requires
        reg.has(app),
    ensures
        title@ == reg.app(app).title,
{
    reg.apps[app].title.clone()
}

/// Gives the application a description.
pub fn set_app_description(reg: &mut AppRegistry, app: App, description: &str)
    requires
        old(reg).has(app),
    ensures
        final(reg)@ == old(reg)@.update(
            app as int,
            AppModel { description: description@, ..old(reg).app(app) },
        ),
{
    reg.apps[app].description = description.to_owned();
    assert(reg@ =~= old(reg)@.update(
        app as int,
        AppModel { description: description@, ..old(reg).app(app) },
    ));
}

/// The application's description.
pub fn get_app_description(reg: &AppRegistry, app: App) -> (description: String)
    requires
        reg.has(app),
    ensures
        description@ == reg.app(app).description,
{
    reg.apps[app].description.clone()
}

/// Names the application's developer.
pub fn set_app_developer(reg: &mut AppRegistry, app: App, developer: String)
    requires
        old(reg).has(app),
    ensures
        final(reg)@ == old(reg)@.update(
            app as int,
            AppModel { developer: developer@, ..old(reg).app(app) },
        ),
{
    let ghost named = AppModel { developer: developer@, ..reg.app(app) };
    reg.apps[app].developer = developer;
    assert(reg@ =~= old(reg)@.update(app as int, named));
}

/// The application's developer.
pub fn get_app_developer(reg: &AppRegistry, app: App) -> (developer: String)
    requires
        reg.has(app),
    ensures
        developer@ == reg.app(app).developer,
{
    reg.apps[app].developer.clone()
}

/// Gives the application a version.
pub fn set_app_version(reg: &mut AppRegistry, app: App, version: Version)
    requires
        old(reg).has(app),
    ensures
        final(reg)@ == old(reg)@.update(app as int, AppModel { version, ..old(reg).app(app) }),
{
    reg.apps[app].version = version;
    assert(reg@ =~= old(reg)@.update(app as int, AppModel { version, ..old(reg).app(app) }));
}

/// The application's version.
pub fn get_app_version(reg: &AppRegistry, app: App) -> (version: Version)
    requires
        reg.has(app),
    ensures
        version == reg.app(app).version,
{
    reg.apps[app].version
}

/// The place of an application's delegate once `delegate` has been
/// attached.
pub open spec fn attached(delegate: Box<dyn AppDelegate>) -> Option<Box<dyn AppDelegate>> {
    let slot = Some(delegate);
    slot
}

/// Attaches a delegate to the application, in place of the one that was
/// attached before, if any.
pub fn set_app_delegate(reg: &mut AppRegistry, app: App, delegate: Box<dyn AppDelegate>)
    requires
        old(reg).has(app),
    ensures
        final(reg).has(app),
        final(reg).app(app).delegate == Some(delegate),
        final(reg)@ == old(reg)@.update(
            app as int,
            AppModel { delegate: final(reg).app(app).delegate, ..old(reg).app(app) },
        ),
{
    let attached = Some(delegate);
    let ghost after = AppModel { delegate: attached, ..reg.app(app) };
    reg.apps[app].delegate = attached;
    assert(reg@ =~= old(reg)@.update(app as int, after));
}

/// Tells whether a delegate is attached to the application.
pub fn has_app_delegate(reg: &AppRegistry, app: App) -> (attached: bool)
    requires
        reg.has(app),
    ensures
        attached == (reg.app(app).delegate is Some),
{
    reg.apps[app].delegate.is_some()
}

/// Adds a window to the application's windows, behind those it has.
pub fn add_app_window(reg: &mut AppRegistry, app: App, window: Window)
    requires
        old(reg).has(app),
    ensures
        final(reg)@ == old(reg)@.update(
            app as int,
            AppModel { windows: old(reg).app(app).windows.push(window), ..old(reg).app(app) },
        ),
{
    reg.apps[app].windows.push(window);
    assert(reg@ =~= old(reg)@.update(
        app as int,
        AppModel { windows: old(reg).app(app).windows.push(window), ..old(reg).app(app) },
    ));
}

/// The application's windows, in the order in which they were added.
pub fn get_app_windows(reg: &AppRegistry, app: App) -> (windows: Vec<Window>)
    requires
        reg.has(app),
    ensures
        windows@ == reg.app(app).windows,
{
    let source = &reg.apps[app].windows;
    let mut windows: Vec<Window> = Vec::new();
    let mut i: usize = 0;
    while i < source.len()
        invariant
            i <= source@.len(),
            windows@ == source@.take(i as int),
        decreases source@.len() - i,
    {
        windows.push(source[i]);
        assert(source@.take(i as int).push(source@[i as int]) =~= source@.take(i + 1));
        i += 1;
    }
    assert(source@.take(i as int) =~= source@);
    windows
}

/// However many titles an application is given in turn, its title is then
/// the last of them, and every other application is as it was.
pub proof fn lemma_title_is_last_set(apps: Seq<AppModel>, app: App, titles: Seq<Seq<char>>)
    requires
        app < apps.len(),
        titles.len() > 0,
    ensures
        titled_in_turn(apps, app, titles).len() == apps.len(),
        titled_in_turn(apps, app, titles)[app as int].title == titles.last(),
        forall|other: int|
            0 <= other < apps.len() && other != app ==> titled_in_turn(apps, app, titles)[other]
                == apps[other],
    decreases titles.len(),
{
    if titles.len() > 1 {
        lemma_title_is_last_set(apps, app, titles.drop_last());
    } else {
        assert(titled_in_turn(apps, app, titles.drop_last()) == apps);
    }
}

/// An application that is run without a delegate is refused with -1 and
/// left exactly as it was: no launch is announced and it is not running.
pub proof fn lemma_run_without_delegate(m: AppModel)
    requires
        m.delegate is None,
    ensures
        run_status(m) == -1,
        after_run(m) == m,
        !announces_launch(m),
{
}

/// Launch and termination are each announced at most once: after either
/// announcement, running the application or signalling its shutdown again
/// announces the same thing no second time.
pub proof fn lemma_announced_once(m: AppModel)
    ensures
        !announces_launch(after_run(m)),
        !announces_termination(after_terminate(m)),
        !announces_launch(after_terminate(after_run(m))),
        announces_launch(m) ==> announces_termination(after_run(m)),
{
}

} // verus!
