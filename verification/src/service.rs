//! The holder of the proxy service: one slot that is empty or holds the
//! handle of the one active service, and the lifecycle operations on it.
//!
//! The service itself is not part of this library. Each operation that
//! needs it comes in two halves: the first decides whether the service is
//! to be called and with what, the second takes what the call returned.
//! Both take the holder by reference, so whoever shares a holder between
//! threads has to lock it round the two halves and the call between them.

use vstd::prelude::*;

verus! {

/// The length of a long-term key of a hidden service, in bytes.
pub const KEY_LENGTH: usize = 64;

/// An active proxy service: where its SOCKS endpoint listens, the address
/// of its control channel, and the service itself.
#[derive(Debug)]
pub struct ServiceHandle<S> {
    pub socks_port: u16,
    pub control_address: String,
    pub service: S,
}

/// What a lifecycle operation can fail with.
#[derive(Debug)]
pub enum ServiceError {
    /// The slot is empty.
    NotInitialized,
    /// The slot holds a service already.
    AlreadyInitialized,
    /// The service did not come up within the time it was given.
    BootstrapTimedOut,
    /// The service failed, with its message.
    Underlying(String),
}

/// Why a service did not start.
#[derive(Debug)]
pub enum StartFailure {
    /// It did not come up within the time it was given.
    TimedOut,
    /// It failed, with its message.
    Failed(String),
}

/// How far the bootstrap of a service has come, as the service reports it.
#[derive(Debug, Clone, Copy, PartialEq, Eq)]
pub enum BootstrapPhase {
    /// Any phase before the last.
    Other,
    /// The bootstrap is over.
    Done,
}

/// The state of the service as the holder reports it. It is derived from
/// the slot and the service's answer each time, never stored.
#[derive(Debug, Clone, Copy, PartialEq, Eq)]
pub enum BootstrapStatus {
    InProgress,
    Ready,
    Unavailable,
}

/// The order to start a service.
#[derive(Debug)]
pub struct StartOrder {
    pub listen_port: u16,
    pub data_dir: String,
    pub bootstrap_timeout_ms: u64,
}

/// The order to create a hidden service.
#[derive(Debug, Clone, Copy)]
pub struct HiddenServiceOrder {
    /// The port under which the hidden service is reached.
    pub hs_port: u16,
    /// The local port that it leads to.
    pub to_port: u16,
    /// The long-term key, where the caller pins the service to one.
    pub secret_key: Option<[u8; 64]>,
}

/// A hidden service that was created.
#[derive(Debug)]
pub struct HiddenServiceRecord {
    pub virtual_port: u16,
    pub target_port: u16,
    pub address_id: String,
    /// The address of the control channel of the service that carries it.
    pub control_address: String,
}

/// The status that a slot and the service's answer come to: unavailable
/// where the slot is empty, where the service was not asked, and where it
/// failed to answer; ready where it reports the last phase; in progress
/// otherwise.
pub open spec fn status_of(active: bool, report: Option<Result<BootstrapPhase, String>>)
    -> BootstrapStatus {
    if !active {
        BootstrapStatus::Unavailable
    } else {
        match report {
            Some(Ok(BootstrapPhase::Done)) => BootstrapStatus::Ready,
            Some(Ok(BootstrapPhase::Other)) => BootstrapStatus::InProgress,
            _ => BootstrapStatus::Unavailable,
        }
    }
}

/// The error that a service which did not start is reported with.
pub open spec fn start_error(failure: StartFailure) -> ServiceError {
    match failure {
        StartFailure::TimedOut => ServiceError::BootstrapTimedOut,
        StartFailure::Failed(message) => ServiceError::Underlying(message),
    }
}

/// The slot after `initialize` and what the operation returns: a started
/// service goes into an empty slot; one that did not start leaves it empty;
/// a slot that holds a service keeps it, and the operation fails.
pub open spec fn initialized<S>(
    slot: Option<ServiceHandle<S>>,
    started: Result<ServiceHandle<S>, StartFailure>,
) -> (Option<ServiceHandle<S>>, Result<(), ServiceError>) {
    match slot {
        Some(_) => (slot, Err(ServiceError::AlreadyInitialized)),
        None => match started {
            Ok(handle) => (Some(handle), Ok(())),
            Err(failure) => (None, Err(start_error(failure))),
        },
    }
}

/// The slot after `shutdown`, which is empty, and the handle that was
/// taken out of it to be torn down.
pub open spec fn shut_down<S>(slot: Option<ServiceHandle<S>>) -> (
    Option<ServiceHandle<S>>,
    Result<ServiceHandle<S>, ServiceError>,
) {
    match slot {
        Some(handle) => (None, Ok(handle)),
        None => (None, Err(ServiceError::NotInitialized)),
    }
}

/// After a shutdown the slot takes a new service, whatever it held before:
/// no earlier session locks the holder.
pub proof fn law_initialize_after_shutdown<S>(
    slot: Option<ServiceHandle<S>>,
    next: ServiceHandle<S>,
)
    ensures
        initialized(shut_down(slot).0, Ok(next)) == (Some(next), Ok::<(), ServiceError>(())),
{
}

/// A service put into an empty slot, shut down, and followed by another:
/// each of the three operations succeeds, the first service is handed out
/// for teardown, and the slot ends up holding the second.
pub proof fn law_restart<S>(first: ServiceHandle<S>, second: ServiceHandle<S>)
    ensures
        ({
            let a = initialized(None, Ok(first));
            let b = shut_down(a.0);
            let c = initialized(b.0, Ok(second));
            &&& a.1 is Ok
            &&& b.1 == Ok::<ServiceHandle<S>, ServiceError>(first)
            &&& c.1 is Ok
            &&& c.0 == Some(second)
        }),
{
}

/// A status query and a shutdown take the holder one after the other.
/// Asked first, the status is that of the slot as it was; asked second, it
/// is `Unavailable`, whatever the service would have answered. In either
/// order the slot ends up empty.
pub proof fn law_status_beside_shutdown<S>(
    slot: Option<ServiceHandle<S>>,
    report: Option<Result<BootstrapPhase, String>>,
)
    ensures
        shut_down(slot).0 is None,
        status_of(shut_down(slot).0 is Some, report) == BootstrapStatus::Unavailable,
        slot is None ==> status_of(slot is Some, report) == BootstrapStatus::Unavailable,
{
}

/// The slot of the one active service.
pub struct ServiceHolder<S> {
    slot: Option<ServiceHandle<S>>,
}

impl<S> View for ServiceHolder<S> {
    type V = Option<ServiceHandle<S>>;

    closed spec fn view(&self) -> Option<ServiceHandle<S>> {
        self.slot
    }
}

impl<S> ServiceHolder<S> {
    /// A holder with an empty slot.
    pub fn new() -> (r: ServiceHolder<S>)
        ensures
            r@ is None,
    {
        ServiceHolder { slot: None }
    }

    /// Whether the slot holds a service.
    pub fn is_active(&self) -> (r: bool)
        ensures
            r == self@ is Some,
    {
        self.slot.is_some()
    }

    /// The handle in the slot.
    pub fn handle(&self) -> (r: Option<&ServiceHandle<S>>)
        ensures
            match r {
                Some(h) => self@ == Some(*h),
                None => self@ is None,
            },
    {
        self.slot.as_ref()
    }

    /// The service in the slot, for a call that changes it. Whatever the
    /// call does, the slot goes on holding that service at the same port
    /// and control address.
    pub fn service_mut(&mut self) -> (r: Option<&mut S>)
        ensures
            match r {
                Some(service) => old(self)@ matches Some(before) && *service == before.service
                    && final(self)@ == Some(
                    ServiceHandle {
                        socks_port: before.socks_port,
                        control_address: before.control_address,
                        service: *final(service),
                    },
                ),
                None => old(self)@ is None && final(self)@ is None,
            },
    {
        match &mut self.slot {
            Some(handle) => Some(&mut handle.service),
            None => None,
        }
    }

    /// The port of the SOCKS endpoint of the active service.
    pub fn socks_port(&self) -> (r: Option<u16>)
        ensures
            match self@ {
                Some(h) => r == Some(h.socks_port),
                None => r is None,
            },
    {
        match &self.slot {
            Some(handle) => Some(handle.socks_port),
            None => None,
        }
    }

    /// First half of `initialize`: refuses where the slot holds a service,
    /// and orders the start of one otherwise.
    pub fn begin_initialize(&self, listen_port: u16, data_dir: String, bootstrap_timeout_ms: u64)
        -> (r: Result<StartOrder, ServiceError>)
        ensures
            match self@ {
                Some(_) => r == Err::<StartOrder, ServiceError>(ServiceError::AlreadyInitialized),
                None => r == Ok::<StartOrder, ServiceError>(
                    StartOrder { listen_port, data_dir, bootstrap_timeout_ms },
                ),
            },
    {
        if self.slot.is_some() {
            Err(ServiceError::AlreadyInitialized)
        } else {
            Ok(StartOrder { listen_port, data_dir, bootstrap_timeout_ms })
        }
    }

    /// Second half of `initialize`: puts the started service into the
    /// empty slot. A service that did not start leaves the slot empty; a
    /// slot that holds a service keeps it, and the operation fails.
    pub fn finish_initialize(&mut self, started: Result<ServiceHandle<S>, StartFailure>) -> (r:
        Result<(), ServiceError>)
        ensures
            (final(self)@, r) == initialized(old(self)@, started),
    {
        if self.slot.is_some() {
            return Err(ServiceError::AlreadyInitialized);
        }
        match started {
            Ok(handle) => {
                self.slot = Some(handle);
                Ok(())
            },
            Err(StartFailure::TimedOut) => Err(ServiceError::BootstrapTimedOut),
            Err(StartFailure::Failed(message)) => Err(ServiceError::Underlying(message)),
        }
    }

    /// The status of the service, from what it answered when asked for its
    /// bootstrap phase; `report` is `None` where it was not asked.
    pub fn status(&self, report: Option<Result<BootstrapPhase, String>>) -> (r: BootstrapStatus)
        ensures
            r == status_of(self@ is Some, report),
    {
        if self.slot.is_none() {
            return BootstrapStatus::Unavailable;
        }
        match report {
            Some(Ok(BootstrapPhase::Done)) => BootstrapStatus::Ready,
            Some(Ok(BootstrapPhase::Other)) => BootstrapStatus::InProgress,
            _ => BootstrapStatus::Unavailable,
        }
    }

    /// First half of `create_hidden_service`: refuses where the slot is
    /// empty, and orders the hidden service otherwise.
    pub fn begin_create_hidden_service(
        &self,
        virtual_port: u16,
        target_port: u16,
        key: Option<[u8; 64]>,
    ) -> (r: Result<HiddenServiceOrder, ServiceError>)
        ensures
            match self@ {
                Some(_) => r == Ok::<HiddenServiceOrder, ServiceError>(
                    HiddenServiceOrder {
                        hs_port: virtual_port,
                        to_port: target_port,
                        secret_key: key,
                    },
                ),
                None => r == Err::<HiddenServiceOrder, ServiceError>(ServiceError::NotInitialized),
            },
    {
        if self.slot.is_none() {
            Err(ServiceError::NotInitialized)
        } else {
            Ok(HiddenServiceOrder { hs_port: virtual_port, to_port: target_port, secret_key: key })
        }
    }

    /// Second half of `create_hidden_service`: the record of the hidden
    /// service that the active service created for `order`, with the
    /// address it gave and the control address of the service.
    pub fn finish_create_hidden_service(
        &self,
        order: HiddenServiceOrder,
        created: Result<String, String>,
    ) -> (r: Result<HiddenServiceRecord, ServiceError>)
        ensures
            match self@ {
                None => r == Err::<HiddenServiceRecord, ServiceError>(ServiceError::NotInitialized),
                Some(handle) => match created {
                    Ok(address_id) => r matches Ok(record) && record.virtual_port == order.hs_port
                        && record.target_port == order.to_port && record.address_id == address_id
                        && record.control_address@ == handle.control_address@,
                    Err(message) => r == Err::<HiddenServiceRecord, ServiceError>(
                        ServiceError::Underlying(message),
                    ),
                },
            },
    {
        match &self.slot {
            None => Err(ServiceError::NotInitialized),
            Some(handle) => match created {
                Ok(address_id) => Ok(
                    HiddenServiceRecord {
                        virtual_port: order.hs_port,
                        target_port: order.to_port,
                        address_id,
                        control_address: handle.control_address.clone(),
                    },
                ),
                Err(message) => Err(ServiceError::Underlying(message)),
            },
        }
    }

    /// First half of `delete_hidden_service`: refuses where the slot is
    /// empty, and otherwise hands back the address to delete.
    pub fn begin_delete_hidden_service(&self, address_id: String) -> (r: Result<
        String,
        ServiceError,
    >)
        ensures
            match self@ {
                Some(_) => r == Ok::<String, ServiceError>(address_id),
                None => r == Err::<String, ServiceError>(ServiceError::NotInitialized),
            },
    {
        if self.slot.is_none() {
            Err(ServiceError::NotInitialized)
        } else {
            Ok(address_id)
        }
    }

    /// Second half of `delete_hidden_service`: what the active service
    /// made of the deletion.
    pub fn finish_delete_hidden_service(&self, deleted: Result<(), String>) -> (r: Result<
        (),
        ServiceError,
    >)
        ensures
            match self@ {
                None => r == Err::<(), ServiceError>(ServiceError::NotInitialized),
                Some(_) => match deleted {
                    Ok(_) => r is Ok,
                    Err(message) => r == Err::<(), ServiceError>(ServiceError::Underlying(message)),
                },
            },
    {
        if self.slot.is_none() {
            return Err(ServiceError::NotInitialized);
        }
        match deleted {
            Ok(_) => Ok(()),
            Err(message) => Err(ServiceError::Underlying(message)),
        }
    }

    /// First half of `shutdown`: takes the handle out of the slot, to be
    /// torn down. The slot is empty afterwards, whatever becomes of the
    /// handle.
    pub fn begin_shutdown(&mut self) -> (r: Result<ServiceHandle<S>, ServiceError>)
        ensures
            final(self)@ is None,
            (final(self)@, r) == shut_down(old(self)@),
    {
        match self.slot.take() {
            Some(handle) => Ok(handle),
            None => Err(ServiceError::NotInitialized),
        }
    }
}

/// Second half of `shutdown`: what the service that was taken out of the
/// slot made of its teardown.
pub fn finish_shutdown(stopped: Result<(), String>) -> (r: Result<(), ServiceError>)
    ensures
        match stopped {
            Ok(_) => r is Ok,
            Err(message) => r == Err::<(), ServiceError>(ServiceError::Underlying(message)),
        },
{
    match stopped {
        Ok(_) => Ok(()),
        Err(message) => Err(ServiceError::Underlying(message)),
    }
}

} // verus!
