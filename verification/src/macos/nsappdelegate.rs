//! The object that receives the application's launch and termination from
//! the system and passes them on to the application's delegate.

use vstd::prelude::*;
use crate::app::{AppDelegate, Phase};

verus! {

/// What the receiving object holds.
pub struct AppDelegateIvars {
    title: String,
    app_delegate: Option<Box<dyn AppDelegate>>,
    phase: Phase,
}

/// The mathematical state of the receiving object.
pub struct AppDelegateModel {
    pub title: Seq<char>,
    pub app_delegate: Option<Box<dyn AppDelegate>>,
    pub phase: Phase,
}

/// The receiver of the application's launch and termination.
pub struct NSAppDelegate {
    ivars: AppDelegateIvars,
}

impl View for NSAppDelegate {
    type V = AppDelegateModel;

    closed spec fn view(&self) -> AppDelegateModel {
        AppDelegateModel {
            title: self.ivars.title@,
            app_delegate: self.ivars.app_delegate,
            phase: self.ivars.phase,
        }
    }
}

/// The launch is passed on: a delegate is attached and no launch was
/// received before.
pub open spec fn passes_launch(m: AppDelegateModel) -> bool {
    m.app_delegate is Some && m.phase is Created
}

/// The state after the system reported the launch.
pub open spec fn after_launch(m: AppDelegateModel) -> AppDelegateModel {
    if m.phase is Created {
        AppDelegateModel { phase: Phase::Running, ..m }
    } else {
        m
    }
}

/// The termination is passed on: a delegate is attached and the
/// application is running.
pub open spec fn passes_termination(m: AppDelegateModel) -> bool {
    m.app_delegate is Some && m.phase is Running
}

/// The state after the system reported the termination.
pub open spec fn after_termination(m: AppDelegateModel) -> AppDelegateModel {
    if m.phase is Running {
        AppDelegateModel { phase: Phase::Terminated, ..m }
    } else {
        m
    }
}

impl NSAppDelegate {
    /// A receiver for an application with the given title, with no delegate
    /// attached yet.
    pub fn new(title: String) -> (this: NSAppDelegate)
        ensures
            this@ == (AppDelegateModel {
                title: title@,
                app_delegate: None,
                phase: Phase::Created,
            }),
    {
        NSAppDelegate {
            ivars: AppDelegateIvars { title, app_delegate: None, phase: Phase::Created },
        }
    }

    /// Attaches the application's delegate, in place of the one that was
    /// attached before, if any.
    pub fn set_app_delegate(&mut self, app_delegate: Box<dyn AppDelegate>)
        ensures
            final(self)@.app_delegate == Some(app_delegate),
            final(self)@ == (AppDelegateModel {
                app_delegate: final(self)@.app_delegate,
                ..old(self)@
            }),
    {
        let attached = Some(app_delegate);
        self.ivars.app_delegate = attached;
    }

    /// The title of the application.
    pub fn title(&self) -> (title: &String)
        ensures
            title@ == self@.title,
    {
        &self.ivars.title
    }

    /// Where the application stands in its life.
    pub fn phase(&self) -> (phase: Phase)
        ensures
            phase == self@.phase,
    {
        self.ivars.phase
    }

    /// Tells whether a delegate is attached.
    pub fn has_app_delegate(&self) -> (attached: bool)
        ensures
            attached == (self@.app_delegate is Some),
    {
        self.ivars.app_delegate.is_some()
    }

    /// Takes the system's report that the application has finished
    /// launching. Returns whether the delegate was told, which happens for
    /// the first report only.
    pub fn did_finish_launching(&mut self) -> (passed: bool)
        ensures
            passed == passes_launch(old(self)@),
            final(self)@ == after_launch(old(self)@),
    {
        match self.ivars.phase {
            Phase::Created => {
                self.ivars.phase = Phase::Running;
                match &self.ivars.app_delegate {
                    Some(app_delegate) => {
                        app_delegate.application_did_finish_launching();
                        true
                    },
                    None => false,
                }
            },
            _ => false,
        }
    }

    /// Takes the system's report that the application will terminate.
    /// Returns whether the delegate was told, which happens once, for an
    /// application that is running.
    pub fn will_terminate(&mut self) -> (passed: bool)
        ensures
            passed == passes_termination(old(self)@),
            final(self)@ == after_termination(old(self)@),
    {
        match self.ivars.phase {
            Phase::Running => {
                self.ivars.phase = Phase::Terminated;
                match &self.ivars.app_delegate {
                    Some(app_delegate) => {
                        app_delegate.application_will_terminate();
                        true
                    },
                    None => false,
                }
            },
            _ => false,
        }
    }
}

} // verus!
