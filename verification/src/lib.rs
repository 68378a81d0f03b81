//! Interop and protocol layer for embedding a multi-process rendering engine:
//! reference-counted capability handlers, the cross-process call protocol
//! behind script-triggered PDF export, and the cooperative scheduler bridge.

use vstd::prelude::*;

pub mod app;
pub mod browser;
pub mod browser_process_handler;
pub mod capability;
pub mod client;
pub mod handle;
pub mod message;
pub mod print_pdf_callback;
pub mod ref_count;
pub mod render_process_handler;
pub mod schedule;
pub mod utf16;
pub mod v8_pdf_print_handler;

verus! {

/// How much the engine logs.
#[derive(Clone, Copy, Debug, PartialEq, Eq, Structural)]
pub enum LogSeverity {
    Info,
    Error,
}

/// The settings with which the engine is started.
#[derive(Clone, Copy, Debug, PartialEq, Eq, Structural)]
pub struct Settings {
    /// Whether the engine runs without its sandbox.
    pub no_sandbox: bool,
    /// The port of the remote debugger; zero for none.
    pub remote_debugging_port: i32,
    /// Whether the engine ignores the command line.
    pub command_line_args_disabled: bool,
    /// Whether the engine runs a message loop on a thread of its own.
    pub multi_threaded_message_loop: bool,
    /// Whether the engine asks the host for time through the scheduler
    /// bridge.
    pub external_message_pump: bool,
    pub log_severity: LogSeverity,
}

/// The engine within one process: the application aggregate and, through it,
/// the schedule that the host's message loop polls.
#[derive(Debug)]
pub struct Cef {
    app: app::App,
}

impl View for Cef {
    type V = app::AppState;

    closed spec fn view(&self) -> app::AppState {
        self.app@
    }
}

impl Cef {
    /// The settings for a host that drives the engine from its own message
    /// loop: no sandbox, no engine thread, the external message pump, the
    /// remote debugger on `debug_port` if one is given, and the log held to
    /// errors unless `verbose`.
    pub fn settings(debug_port: Option<u16>, enable_command_line_args: bool, verbose: bool) -> (settings:
        Settings)
        ensures
            settings == (Settings {
                no_sandbox: true,
                remote_debugging_port: match debug_port {
                    Some(port) => port as i32,
                    None => 0,
                },
                command_line_args_disabled: !enable_command_line_args,
                multi_threaded_message_loop: false,
                external_message_pump: true,
                log_severity: if verbose {
                    LogSeverity::Info
                } else {
                    LogSeverity::Error
                },
            }),
    {
        Settings {
            no_sandbox: true,
            remote_debugging_port: match debug_port {
                Some(port) => port as i32,
                None => 0,
            },
            command_line_args_disabled: !enable_command_line_args,
            multi_threaded_message_loop: false,
            external_message_pump: true,
            log_severity: if verbose {
                LogSeverity::Info
            } else {
                LogSeverity::Error
            },
        }
    }

    /// Whether the engine's answer to the start of a process says that the
    /// process was a helper of the engine and has done its work: the process
    /// is then to exit with that code.
    pub fn is_helper_exit(exit_code: i32) -> (helper: bool)
        ensures
            helper == (exit_code >= 0),
    {
        exit_code >= 0
    }

    /// The engine's side of a process that starts now: a new schedule and a
    /// new application aggregate.
    pub fn new() -> (cef: Cef)
        ensures
            cef@.owners == 1,
            cef@.browser_process_handler.owners == 1,
            cef@.browser_process_handler.schedule.next_work_time == 0,
            cef@.render_process_handler == (render_process_handler::RenderProcessState {
                owners: 1,
                pdf_print_extension: v8_pdf_print_handler::BridgeState {
                    owners: 1,
                    frame: None,
                    done_callback: None,
                },
            }),
    {
        Cef { app: app::allocate(schedule::Schedule::new()) }
    }

    /// The application aggregate.
    pub fn app(&self) -> (app: &app::App)
        ensures
            app@ == self@,
    {
        &self.app
    }

    /// The application aggregate, to be changed in place.
    pub fn app_mut(&mut self) -> (app: &mut app::App)
        ensures
            app@ == old(self)@,
            final(self)@ == final(app)@,
    {
        &mut self.app
    }

    /// Whether the engine is due to be given time now.
    pub fn should_do_work(&self) -> (due: bool)
        ensures
            exists|now_ms: i64|
                due == #[trigger] schedule::is_due(
                    now_ms,
                    self@.browser_process_handler.schedule.next_work_time,
                ),
    {
        self.app.browser_process_handler().schedule().should_do_work()
    }
}

} // verus!
