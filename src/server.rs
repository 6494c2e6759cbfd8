//! The server facade: its configuration, and the catalog operations that
//! reach the scanner once the server has started.
use vstd::prelude::*;
use crate::detection::DetectableActivity;
use crate::index::{builds, normalise};
use crate::json::decimal;
use crate::process::{Exec, ProcessDetectedEvent, ProcessScanState, ProcessServer, not_named, streaming_path};

verus! {

/// Which sources the server runs; the hub always runs.
#[derive(Clone, Copy, Debug, PartialEq, Eq, Structural)]
pub struct RPCConfig {
    pub enable_process_scanner: bool,
    pub enable_ipc_connector: bool,
    pub enable_websocket_connector: bool,
    pub enable_secondary_events: bool,
}

impl Default for RPCConfig {
    /// Every source enabled.
    fn default() -> (r: RPCConfig)
        ensures
            r.enable_process_scanner && r.enable_ipc_connector && r.enable_websocket_connector
                && r.enable_secondary_events,
    {
        RPCConfig {
            enable_process_scanner: true,
            enable_ipc_connector: true,
            enable_websocket_connector: true,
            enable_secondary_events: true,
        }
    }
}

/// The server's catalog and, once started, its scanner.
pub struct RPCServer {
    detectable: Vec<DetectableActivity>,
    config: RPCConfig,
    scanner: Option<ProcessServer>,
}

impl RPCServer {
    /// The catalog the server was made with.
    pub closed spec fn catalog(&self) -> Seq<DetectableActivity> {
        self.detectable@
    }

    /// Which sources the server runs.
    pub closed spec fn spec_config(&self) -> RPCConfig {
        self.config
    }

    /// Which sources the server runs.
    pub fn config(&self) -> (r: RPCConfig)
        ensures
            r == self.spec_config(),
    {
        self.config
    }

    /// `start` has run and built the scanner.
    pub closed spec fn started(&self) -> bool {
        self.scanner is Some
    }

    /// The scanner, once started.
    pub closed spec fn scanner(&self) -> ProcessServer {
        self.scanner->Some_0
    }

    pub closed spec fn wf(&self) -> bool {
        self.scanner matches Some(s) ==> s.wf()
    }

    /// A server over the catalog `detectable`, not started.
    pub fn new(detectable: Vec<DetectableActivity>, config: RPCConfig) -> (r: RPCServer)
        ensures
            r.wf(),
            !r.started(),
            r.catalog() == detectable@,
            r.spec_config() == config,
    {
        RPCServer { detectable, config, scanner: None }
    }

    /// Whether `start` has run.
    pub fn is_started(&self) -> (r: bool)
        ensures
            r == self.started(),
    {
        self.scanner.is_some()
    }

    /// Builds the scanner over the catalog; `false` exactly when the
    /// catalog's index cannot be built. A started server stays as it is.
    pub fn start(&mut self) -> (r: bool)
        requires
            old(self).wf(),
        ensures
            final(self).wf(),
            final(self).spec_config() == old(self).spec_config(),
            old(self).started() ==> *final(self) == *old(self) && r,
            !old(self).started() ==> r == final(self).started() && (r <==> builds(old(self).catalog()))
                && (r ==> final(self).scanner().builtin() == old(self).catalog()
                && final(self).scanner().custom().len() == 0),
    {
        if self.scanner.is_some() {
            return true;
        }
        let mut list: Vec<DetectableActivity> = Vec::new();
        std::mem::swap(&mut list, &mut self.detectable);
        match ProcessServer::new(list) {
            Some(s) => {
                self.scanner = Some(s);
                true
            },
            None => false,
        }
    }

    /// Adds custom entries; nothing happens before `start`. `true` when the
    /// custom index was rebuilt.
    pub fn append_detectables(&mut self, detectable: Vec<DetectableActivity>) -> (r: bool)
        requires
            old(self).wf(),
        ensures
            final(self).wf(),
            !old(self).started() ==> *final(self) == *old(self) && !r,
            old(self).started() ==> final(self).started() && final(self).scanner().custom() == old(
                self,
            ).scanner().custom() + detectable@ && final(self).scanner().builtin() == old(
                self,
            ).scanner().builtin() && r == final(self).scanner().custom_ready() && r == builds(
                final(self).scanner().custom(),
            ),
    {
        match &mut self.scanner {
            None => false,
            Some(s) => s.append_detectables(detectable),
        }
    }

    /// Removes the custom entries named `name`; nothing happens before
    /// `start`. `true` when the custom index was rebuilt.
    pub fn remove_detectable_by_name(&mut self, name: String) -> (r: bool)
        requires
            old(self).wf(),
        ensures
            final(self).wf(),
            !old(self).started() ==> *final(self) == *old(self) && !r,
            old(self).started() ==> final(self).started() && final(self).scanner().custom() == old(
                self,
            ).scanner().custom().filter(not_named(name@)) && final(self).scanner().builtin()
                == old(self).scanner().builtin() && r == final(self).scanner().custom_ready() && r
                == builds(final(self).scanner().custom()),
    {
        match &mut self.scanner {
            None => false,
            Some(s) => s.remove_detectable_by_name(name),
        }
    }

    /// Scans a snapshot of processes, stamping detections with the time
    /// `now_ms`; nothing before `start`.
    pub fn scan_for_processes(&self, processes: &Vec<Exec>, now_ms: u64) -> (r: Option<(Vec<DetectableActivity>, ProcessScanState)>)
        requires
            self.wf(),
        ensures
            r is Some <==> self.started(),
            r matches Some(x) ==> self.scanner().scan_result(processes@, decimal(now_ms as nat), x.0@),
            r matches Some(x) ==> x.1.obs_open == exists|j: int|
                0 <= j < processes@.len() && streaming_path(normalise(#[trigger] processes@[j].path@)),
    {
        match &self.scanner {
            None => None,
            Some(s) => Some(s.scan_for_processes(processes, now_ms)),
        }
    }

    /// What the scanner reports for a scan's detections; nothing before
    /// `start`.
    pub fn report(&mut self, detected: Vec<DetectableActivity>) -> (r: Option<ProcessDetectedEvent>)
        requires
            old(self).wf(),
        ensures
            final(self).wf(),
            r is Some <==> old(self).started(),
            final(self).started() == old(self).started(),
            r matches Some(ev) ==> (detected@.len() == 0 ==> ev.activity.is_blank_sentinel()) && (
            detected@.len() > 0 ==> ev.activity.same_entry(&detected@[0])),
            !old(self).started() ==> *final(self) == *old(self),
            old(self).started() ==> {
                let (o, n) = (old(self).scanner(), final(self).scanner());
                &&& n.builtin() == o.builtin()
                &&& n.custom() == o.custom()
                &&& n.custom_ready() == o.custom_ready()
                &&& detected@.len() == 0 ==> n.detected() == o.detected()
                &&& detected@.len() > 0 ==> if o.detected().len() == 0 || o.detected()[0].id@
                    != detected@[0].id@ {
                    n.detected() == detected@
                } else {
                    n.detected() == o.detected()
                }
            },
    {
        match &mut self.scanner {
            None => None,
            Some(s) => Some(s.report(detected)),
        }
    }

    /// Whether a scan-complete callback may be registered: only before
    /// `start`.
    pub fn on_process_scan_complete(&self) -> (r: bool)
        ensures
            r == !self.started(),
    {
        self.scanner.is_none()
    }
}

} // verus!
