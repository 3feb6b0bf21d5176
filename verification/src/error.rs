//! How actors and their handles fail.
use crate::text::{decimal, decimal_text, law_decimal, number};
use crate::ActorId;
use vstd::prelude::*;
use vstd::string::*;

verus! {

/// `flume::RecvError`, which a wait on a closed channel comes back with.
#[verifier::external_type_specification]
#[verifier::external_body]
pub struct ExRecvError(flume::RecvError);

/// `std::io::Error`, which is carried through.
#[verifier::external_type_specification]
#[verifier::external_body]
pub struct ExIoError(std::io::Error);

/// Why an actor, or a request to it with messages of type `T`, failed.
#[derive(Debug)]
#[verifier::reject_recursive_types(T)]
pub enum ActorError<T> {
    /// The actor failed, or could not be reached, for the reason given.
    ActorError(String),
    /// A message was not taken.
    SendError(flume::SendError<T>),
    /// A wait ended with the channel closed.
    RecvError(flume::RecvError),
    /// Input or output failed.
    IoError(std::io::Error),
    /// The channel is closed and no message is left.
    ChannelClosed,
    /// The system cannot do what was asked, for the reason given.
    SystemError(String),
    /// The actor gave no sign of life in time.
    HeartbeatTimeout(ActorId),
    Unknown,
}

/// The `Debug` impl of `flume::SendError` writes this text, quotes and all, whatever the message was.
#[verifier::external_body]
pub(crate) fn send_error_debug<T>(e: &flume::SendError<T>) -> (text: String)
    ensures
        text@ == "\"SendError(..)\""@,
{
    format!("{e:?}")
}

/// The `Display` impl of `flume::SendError` writes this text whatever the message was.
#[verifier::external_body]
fn send_error_display<T>(e: &flume::SendError<T>) -> (text: String)
    ensures
        text@ == "sending on a closed channel"@,
{
    format!("{e}")
}

/// The `Display` impl of `flume::RecvError`, which has one value, writes this text.
#[verifier::external_body]
pub(crate) fn recv_error_display(e: &flume::RecvError) -> (text: String)
    ensures
        text@ == "receiving on a closed channel"@,
{
    format!("{e}")
}

/// The derived `Debug` impl of `flume::RecvError` writes the name of its one variant.
#[verifier::external_body]
pub(crate) fn recv_error_debug(e: &flume::RecvError) -> (text: String)
    ensures
        text@ == "Disconnected"@,
{
    format!("{e:?}")
}

impl<T> ActorError<T> {
    /// What the error reads like.
    pub open spec fn text(self) -> Seq<char> {
        match self {
            ActorError::ActorError(reason) => "Actor error "@ + reason@,
            ActorError::SendError(_) => "Send Error"@ + "sending on a closed channel"@,
            ActorError::RecvError(_) => "Recv Error"@ + "receiving on a closed channel"@,
            ActorError::IoError(_) => "Io Error"@,
            ActorError::ChannelClosed => "Channel closed, no messages left to process"@,
            ActorError::SystemError(reason) => "System error "@ + reason@,
            ActorError::HeartbeatTimeout(id) => "Actor heartbeat timed out "@ + decimal_text(id as nat),
            ActorError::Unknown => "Unknown"@,
        }
    }

    /// Writes the error out for a reader.
    pub fn message(&self) -> (text: String)
        ensures
            text@ == self.text(),
    {
        match self {
            ActorError::ActorError(reason) => "Actor error ".to_owned().concat(reason.as_str()),
            ActorError::SendError(e) => "Send Error".to_owned().concat(send_error_display(e).as_str()),
            ActorError::RecvError(e) => "Recv Error".to_owned().concat(recv_error_display(e).as_str()),
            ActorError::IoError(_) => "Io Error".to_owned(),
            ActorError::ChannelClosed => "Channel closed, no messages left to process".to_owned(),
            ActorError::SystemError(reason) => "System error ".to_owned().concat(reason.as_str()),
            ActorError::HeartbeatTimeout(id) => "Actor heartbeat timed out ".to_owned().concat(decimal(*id).as_str()),
            ActorError::Unknown => "Unknown".to_owned(),
        }
    }
}

/// Whether `to` is `from` as it is passed on to a caller whose own messages are of another type. A
/// refused send keeps its text and loses the message that it carries, since the caller has no place
/// for it; any other error is the same.
pub open spec fn relayed<T, U>(from: ActorError<T>, to: ActorError<U>) -> bool {
    match from {
        ActorError::ActorError(reason) => to == ActorError::<U>::ActorError(reason),
        ActorError::SendError(_) => {
            &&& to matches ActorError::ActorError(text)
            &&& text@ == "Send error "@ + "\"SendError(..)\""@
        },
        ActorError::RecvError(e) => to == ActorError::<U>::RecvError(e),
        ActorError::IoError(e) => to == ActorError::<U>::IoError(e),
        ActorError::ChannelClosed => to == ActorError::<U>::ChannelClosed,
        ActorError::SystemError(reason) => to == ActorError::<U>::SystemError(reason),
        ActorError::HeartbeatTimeout(id) => to == ActorError::<U>::HeartbeatTimeout(id),
        ActorError::Unknown => to == ActorError::<U>::Unknown,
    }
}

/// Passes an error on to a caller whose own messages are of another type.
pub fn relay<T, U>(from: ActorError<T>) -> (to: ActorError<U>)
    ensures
        relayed(from, to),
{
    match from {
        ActorError::ActorError(reason) => ActorError::ActorError(reason),
        ActorError::SendError(e) => ActorError::ActorError(
            "Send error ".to_owned().concat(send_error_debug(&e).as_str()),
        ),
        ActorError::RecvError(e) => ActorError::RecvError(e),
        ActorError::IoError(e) => ActorError::IoError(e),
        ActorError::ChannelClosed => ActorError::ChannelClosed,
        ActorError::SystemError(reason) => ActorError::SystemError(reason),
        ActorError::HeartbeatTimeout(id) => ActorError::HeartbeatTimeout(id),
        ActorError::Unknown => ActorError::Unknown,
    }
}

/// Reads what sending a message came back with.
pub fn report_delivery<T>(sent: Result<(), flume::SendError<T>>) -> (result: Result<
    (),
    ActorError<T>,
>)
    ensures
        match sent {
            Ok(()) => result == Ok::<(), ActorError<T>>(()),
            Err(e) => result == Err::<(), ActorError<T>>(ActorError::SendError(e)),
        },
{
    match sent {
        Ok(()) => Ok(()),
        Err(e) => Err(ActorError::from(e)),
    }
}

impl<T> From<flume::SendError<T>> for ActorError<T> {
    fn from(e: flume::SendError<T>) -> (error: Self) {
        ActorError::SendError(e)
    }
}

impl<T> vstd::std_specs::convert::FromSpecImpl<flume::SendError<T>> for ActorError<T> {
    open spec fn obeys_from_spec() -> bool {
        true
    }

    open spec fn from_spec(e: flume::SendError<T>) -> Self {
        ActorError::SendError(e)
    }
}

impl<T> From<flume::RecvError> for ActorError<T> {
    fn from(e: flume::RecvError) -> (error: Self) {
        ActorError::RecvError(e)
    }
}

impl<T> vstd::std_specs::convert::FromSpecImpl<flume::RecvError> for ActorError<T> {
    open spec fn obeys_from_spec() -> bool {
        true
    }

    open spec fn from_spec(e: flume::RecvError) -> Self {
        ActorError::RecvError(e)
    }
}

impl<T> From<std::io::Error> for ActorError<T> {
    fn from(e: std::io::Error) -> (error: Self) {
        ActorError::IoError(e)
    }
}

impl<T> vstd::std_specs::convert::FromSpecImpl<std::io::Error> for ActorError<T> {
    open spec fn obeys_from_spec() -> bool {
        true
    }

    open spec fn from_spec(e: std::io::Error) -> Self {
        ActorError::IoError(e)
    }
}

/// What each error reads like.
pub proof fn law_message<T>(error: &ActorError<T>, text: String)
    requires
        call_ensures(ActorError::<T>::message, (error,), text),
    ensures
        match *error {
            ActorError::ActorError(reason) => text@ == "Actor error "@ + reason@,
            ActorError::SendError(_) => text@ == "Send Error"@ + "sending on a closed channel"@,
            ActorError::RecvError(_) => text@ == "Recv Error"@ + "receiving on a closed channel"@,
            ActorError::IoError(_) => text@ == "Io Error"@,
            ActorError::ChannelClosed => text@ == "Channel closed, no messages left to process"@,
            ActorError::SystemError(reason) => text@ == "System error "@ + reason@,
            ActorError::HeartbeatTimeout(id) => exists|digits: Seq<char>|
                text@ == #[trigger] ("Actor heartbeat timed out "@ + digits) && number(digits) == id
                    && digits.len() > 0 && (forall|i: int|
                    0 <= i < digits.len() ==> '0' <= #[trigger] digits[i] <= '9') && (id > 0
                    ==> digits[0] != '0'),
            ActorError::Unknown => text@ == "Unknown"@,
        },
{
    if let ActorError::HeartbeatTimeout(id) = *error {
        law_decimal(id as nat);
        assert(text@ == "Actor heartbeat timed out "@ + decimal_text(id as nat));
    }
}

/// An error that arises from another carries it.
pub proof fn law_error_from<T>(
    refused: flume::SendError<T>,
    closed: flume::RecvError,
    io: std::io::Error,
    from_refused: ActorError<T>,
    from_closed: ActorError<T>,
    from_io: ActorError<T>,
)
    requires
        call_ensures(
            <ActorError<T> as From<flume::SendError<T>>>::from,
            (refused,),
            from_refused,
        ),
        call_ensures(<ActorError<T> as From<flume::RecvError>>::from, (closed,), from_closed),
        call_ensures(<ActorError<T> as From<std::io::Error>>::from, (io,), from_io),
    ensures
        from_refused == ActorError::<T>::SendError(refused),
        from_closed == ActorError::<T>::RecvError(closed),
        from_io == ActorError::<T>::IoError(io),
{
}

} // verus!
