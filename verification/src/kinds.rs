//! Frame types, frame flags and error codes of the RSocket protocol, with
//! their wire numbers.
use vstd::prelude::*;
use crate::text::{decimal, decimal_string};

verus! {

/// Frame types from the RSocket protocol.
#[derive(Copy, Clone, PartialEq, Eq, Structural, Debug)]
pub enum FrameType {
    Reserved,
    Setup,
    Lease,
    Keepalive,
    RequestResponse,
    RequestFnf,
    RequestStream,
    RequestChannel,
    RequestN,
    Cancel,
    Payload,
    Error,
    MetadataPush,
    Resume,
    ResumeOk,
    Ext,
}

/// The wire number of each frame type.
pub open spec fn frame_type_code(t: FrameType) -> nat {
    match t {
        FrameType::Reserved => 0,
        FrameType::Setup => 1,
        FrameType::Lease => 2,
        FrameType::Keepalive => 3,
        FrameType::RequestResponse => 4,
        FrameType::RequestFnf => 5,
        FrameType::RequestStream => 6,
        FrameType::RequestChannel => 7,
        FrameType::RequestN => 8,
        FrameType::Cancel => 9,
        FrameType::Payload => 10,
        FrameType::Error => 11,
        FrameType::MetadataPush => 12,
        FrameType::Resume => 13,
        FrameType::ResumeOk => 14,
        FrameType::Ext => 63,
    }
}

/// The frame type with wire number `i`, if there is one.
pub open spec fn frame_type_of_code(i: int) -> Option<FrameType> {
    if i == 0 { Some(FrameType::Reserved) }
    else if i == 1 { Some(FrameType::Setup) }
    else if i == 2 { Some(FrameType::Lease) }
    else if i == 3 { Some(FrameType::Keepalive) }
    else if i == 4 { Some(FrameType::RequestResponse) }
    else if i == 5 { Some(FrameType::RequestFnf) }
    else if i == 6 { Some(FrameType::RequestStream) }
    else if i == 7 { Some(FrameType::RequestChannel) }
    else if i == 8 { Some(FrameType::RequestN) }
    else if i == 9 { Some(FrameType::Cancel) }
    else if i == 10 { Some(FrameType::Payload) }
    else if i == 11 { Some(FrameType::Error) }
    else if i == 12 { Some(FrameType::MetadataPush) }
    else if i == 13 { Some(FrameType::Resume) }
    else if i == 14 { Some(FrameType::ResumeOk) }
    else if i == 63 { Some(FrameType::Ext) }
    else { None }
}

/// The message of a failed index conversion.
pub open spec fn invalid_index_message(index: nat, kind: Seq<char>) -> Seq<char> {
    decimal(index) + " is not a valid index for "@ + kind
}

impl FrameType {
    /// The frame type with the given wire number, or an error message naming
    /// the number.
    pub fn try_from(index: u8) -> (r: Result<FrameType, String>)
        ensures
            r is Ok <==> frame_type_of_code(index as int) is Some,
            r matches Ok(t) ==> frame_type_of_code(index as int) == Some(t),
            r matches Err(s) ==> s@ == invalid_index_message(index as nat, "FrameType"@),
    {
        match index {
            0 => Ok(FrameType::Reserved),
            1 => Ok(FrameType::Setup),
            2 => Ok(FrameType::Lease),
            3 => Ok(FrameType::Keepalive),
            4 => Ok(FrameType::RequestResponse),
            5 => Ok(FrameType::RequestFnf),
            6 => Ok(FrameType::RequestStream),
            7 => Ok(FrameType::RequestChannel),
            8 => Ok(FrameType::RequestN),
            9 => Ok(FrameType::Cancel),
            10 => Ok(FrameType::Payload),
            11 => Ok(FrameType::Error),
            12 => Ok(FrameType::MetadataPush),
            13 => Ok(FrameType::Resume),
            14 => Ok(FrameType::ResumeOk),
            63 => Ok(FrameType::Ext),
            _ => {
                let mut s = decimal_string(index as u64);
                s.append(" is not a valid index for ");
                s.append("FrameType");
                Err(s)
            },
        }
    }

    /// The wire number of the frame type. RESERVED has none to send.
    pub fn into_u32(self) -> (r: u32)
        requires
            self != FrameType::Reserved,
        ensures
            r == frame_type_code(self),
    {
        match self {
            FrameType::Reserved => 0,
            FrameType::Setup => 1,
            FrameType::Lease => 2,
            FrameType::Keepalive => 3,
            FrameType::RequestResponse => 4,
            FrameType::RequestFnf => 5,
            FrameType::RequestStream => 6,
            FrameType::RequestChannel => 7,
            FrameType::RequestN => 8,
            FrameType::Cancel => 9,
            FrameType::Payload => 10,
            FrameType::Error => 11,
            FrameType::MetadataPush => 12,
            FrameType::Resume => 13,
            FrameType::ResumeOk => 14,
            FrameType::Ext => 63,
        }
    }

    /// The protocol name of the frame type, as it is displayed.
    pub fn name(&self) -> (r: &'static str)
        ensures
            r@ == frame_type_name(*self),
    {
        match self {
            FrameType::Reserved => "RESERVED",
            FrameType::Setup => "SETUP",
            FrameType::Lease => "LEASE",
            FrameType::Keepalive => "KEEPALIVE",
            FrameType::RequestResponse => "REQUEST_RESPONSE",
            FrameType::RequestFnf => "REQUEST_FNF",
            FrameType::RequestStream => "REQUEST_STREAM",
            FrameType::RequestChannel => "REQUEST_CHANNEL",
            FrameType::RequestN => "REQUEST_N",
            FrameType::Cancel => "CANCEL",
            FrameType::Payload => "PAYLOAD",
            FrameType::Error => "ERROR",
            FrameType::MetadataPush => "METADATA_PUSH",
            FrameType::Resume => "RESUME",
            FrameType::ResumeOk => "RESUME_OK",
            FrameType::Ext => "EXT",
        }
    }
}

/// The displayed name of each frame type.
pub open spec fn frame_type_name(t: FrameType) -> Seq<char> {
    match t {
        FrameType::Reserved => "RESERVED"@,
        FrameType::Setup => "SETUP"@,
        FrameType::Lease => "LEASE"@,
        FrameType::Keepalive => "KEEPALIVE"@,
        FrameType::RequestResponse => "REQUEST_RESPONSE"@,
        FrameType::RequestFnf => "REQUEST_FNF"@,
        FrameType::RequestStream => "REQUEST_STREAM"@,
        FrameType::RequestChannel => "REQUEST_CHANNEL"@,
        FrameType::RequestN => "REQUEST_N"@,
        FrameType::Cancel => "CANCEL"@,
        FrameType::Payload => "PAYLOAD"@,
        FrameType::Error => "ERROR"@,
        FrameType::MetadataPush => "METADATA_PUSH"@,
        FrameType::Resume => "RESUME"@,
        FrameType::ResumeOk => "RESUME_OK"@,
        FrameType::Ext => "EXT"@,
    }
}

/// Converting a frame type to its wire number and back gives the same type.
pub proof fn law_frame_type_code_roundtrip(t: FrameType)
    ensures
        frame_type_of_code(frame_type_code(t) as int) == Some(t),
{
}

/// Frame flags from the RSocket protocol.
#[derive(Copy, Clone, PartialEq, Eq, Structural, Debug)]
pub enum FrameFlag {
    Metadata,
    Follows,
    Complete,
    Next,
    Ignore,
}

/// The index of each frame flag.
pub open spec fn frame_flag_index(f: FrameFlag) -> nat {
    match f {
        FrameFlag::Metadata => 0,
        FrameFlag::Follows => 1,
        FrameFlag::Complete => 2,
        FrameFlag::Next => 3,
        FrameFlag::Ignore => 4,
    }
}

/// The frame flag with index `i`, if there is one.
pub open spec fn frame_flag_of_index(i: int) -> Option<FrameFlag> {
    if i == 0 { Some(FrameFlag::Metadata) }
    else if i == 1 { Some(FrameFlag::Follows) }
    else if i == 2 { Some(FrameFlag::Complete) }
    else if i == 3 { Some(FrameFlag::Next) }
    else if i == 4 { Some(FrameFlag::Ignore) }
    else { None }
}

/// The displayed abbreviation of each frame flag.
pub open spec fn frame_flag_name(f: FrameFlag) -> Seq<char> {
    match f {
        FrameFlag::Metadata => "M"@,
        FrameFlag::Follows => "FRS"@,
        FrameFlag::Complete => "CL"@,
        FrameFlag::Next => "N"@,
        FrameFlag::Ignore => "I"@,
    }
}

impl FrameFlag {
    /// The frame flag with the given index, or an error message naming it.
    pub fn try_from(index: u32) -> (r: Result<FrameFlag, String>)
        ensures
            r is Ok <==> frame_flag_of_index(index as int) is Some,
            r matches Ok(f) ==> frame_flag_of_index(index as int) == Some(f),
            r matches Err(s) ==> s@ == invalid_index_message(index as nat, "FrameFlag"@),
    {
        match index {
            0 => Ok(FrameFlag::Metadata),
            1 => Ok(FrameFlag::Follows),
            2 => Ok(FrameFlag::Complete),
            3 => Ok(FrameFlag::Next),
            4 => Ok(FrameFlag::Ignore),
            _ => {
                let mut s = decimal_string(index as u64);
                s.append(" is not a valid index for ");
                s.append("FrameFlag");
                Err(s)
            },
        }
    }

    /// The index of the flag.
    pub fn into_u32(self) -> (r: u32)
        ensures
            r == frame_flag_index(self),
    {
        match self {
            FrameFlag::Metadata => 0,
            FrameFlag::Follows => 1,
            FrameFlag::Complete => 2,
            FrameFlag::Next => 3,
            FrameFlag::Ignore => 4,
        }
    }

    /// The abbreviation of the flag, as it is displayed.
    pub fn name(&self) -> (r: &'static str)
        ensures
            r@ == frame_flag_name(*self),
    {
        match self {
            FrameFlag::Metadata => "M",
            FrameFlag::Follows => "FRS",
            FrameFlag::Complete => "CL",
            FrameFlag::Next => "N",
            FrameFlag::Ignore => "I",
        }
    }
}

/// Converting a flag to its index and back gives the same flag.
pub proof fn law_frame_flag_index_roundtrip(f: FrameFlag)
    ensures
        frame_flag_of_index(frame_flag_index(f) as int) == Some(f),
{
}

/// RSocket error codes.
#[derive(Copy, Clone, PartialEq, Eq, Structural, Debug)]
pub enum ErrorCode {
    InvalidSetup,
    UnsupportedSetup,
    RejectedSetup,
    RejectedResume,
    ConnectionError,
    ConnectionClose,
    ApplicationError,
    Rejected,
    Canceled,
    Invalid,
    Reserved,
}

/// The wire number of each error code.
pub open spec fn error_code_value(c: ErrorCode) -> nat {
    match c {
        ErrorCode::InvalidSetup => 1,
        ErrorCode::UnsupportedSetup => 2,
        ErrorCode::RejectedSetup => 3,
        ErrorCode::RejectedResume => 4,
        ErrorCode::ConnectionError => 257,
        ErrorCode::ConnectionClose => 258,
        ErrorCode::ApplicationError => 513,
        ErrorCode::Rejected => 514,
        ErrorCode::Canceled => 515,
        ErrorCode::Invalid => 516,
        ErrorCode::Reserved => 4294967295,
    }
}

/// The error code with wire number `i`, if there is one.
pub open spec fn error_code_of_value(i: int) -> Option<ErrorCode> {
    if i == 1 { Some(ErrorCode::InvalidSetup) }
    else if i == 2 { Some(ErrorCode::UnsupportedSetup) }
    else if i == 3 { Some(ErrorCode::RejectedSetup) }
    else if i == 4 { Some(ErrorCode::RejectedResume) }
    else if i == 257 { Some(ErrorCode::ConnectionError) }
    else if i == 258 { Some(ErrorCode::ConnectionClose) }
    else if i == 513 { Some(ErrorCode::ApplicationError) }
    else if i == 514 { Some(ErrorCode::Rejected) }
    else if i == 515 { Some(ErrorCode::Canceled) }
    else if i == 516 { Some(ErrorCode::Invalid) }
    else if i == 4294967295 { Some(ErrorCode::Reserved) }
    else { None }
}

impl ErrorCode {
    /// The error code with the given wire number, or an error message naming it.
    pub fn try_from(index: u32) -> (r: Result<ErrorCode, String>)
        ensures
            r is Ok <==> error_code_of_value(index as int) is Some,
            r matches Ok(c) ==> error_code_of_value(index as int) == Some(c),
            r matches Err(s) ==> s@ == invalid_index_message(index as nat, "ErrorCode"@),
    {
        match index {
            1 => Ok(ErrorCode::InvalidSetup),
            2 => Ok(ErrorCode::UnsupportedSetup),
            3 => Ok(ErrorCode::RejectedSetup),
            4 => Ok(ErrorCode::RejectedResume),
            257 => Ok(ErrorCode::ConnectionError),
            258 => Ok(ErrorCode::ConnectionClose),
            513 => Ok(ErrorCode::ApplicationError),
            514 => Ok(ErrorCode::Rejected),
            515 => Ok(ErrorCode::Canceled),
            516 => Ok(ErrorCode::Invalid),
            4294967295 => Ok(ErrorCode::Reserved),
            _ => {
                let mut s = decimal_string(index as u64);
                s.append(" is not a valid index for ");
                s.append("ErrorCode");
                Err(s)
            },
        }
    }

    /// The wire number of the error code.
    pub fn into_u32(self) -> (r: u32)
        ensures
            r == error_code_value(self),
    {
        match self {
            ErrorCode::InvalidSetup => 1,
            ErrorCode::UnsupportedSetup => 2,
            ErrorCode::RejectedSetup => 3,
            ErrorCode::RejectedResume => 4,
            ErrorCode::ConnectionError => 257,
            ErrorCode::ConnectionClose => 258,
            ErrorCode::ApplicationError => 513,
            ErrorCode::Rejected => 514,
            ErrorCode::Canceled => 515,
            ErrorCode::Invalid => 516,
            ErrorCode::Reserved => 4294967295,
        }
    }
}

/// Converting an error code to its wire number and back gives the same code.
pub proof fn law_error_code_roundtrip(c: ErrorCode)
    ensures
        error_code_of_value(error_code_value(c) as int) == Some(c),
{
}

} // verus!
