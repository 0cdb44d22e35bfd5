//! The opcodes of the commands, in the order of the canonical PulseAudio enumeration.

use vstd::prelude::*;

verus! {

/// The number of opcodes.
pub const OPCODE_COUNT: u32 = 104;

/// Names a command or a reply inside a control packet.
#[derive(Clone, Copy, Debug, PartialEq, Eq, Structural)]
pub enum Opcode {
    /// Command error, sent to a client when a command fails.
    Error,
    /// Pseudo command.
    Timeout,
    /// Reply to a command.
    Reply,
    CreatePlaybackStream,
    DeletePlaybackStream,
    CreateRecordStream,
    DeleteRecordStream,
    Exit,
    Auth,
    SetClientName,
    LookupSink,
    LookupSource,
    DrainPlaybackStream,
    Stat,
    GetPlaybackLatency,
    CreateUploadStream,
    DeleteUploadStream,
    FinishUploadStream,
    PlaySample,
    RemoveSample,
    GetServerInfo,
    GetSinkInfo,
    GetSinkInfoList,
    GetSourceInfo,
    GetSourceInfoList,
    GetModuleInfo,
    GetModuleInfoList,
    GetClientInfo,
    GetClientInfoList,
    GetSinkInputInfo,
    GetSinkInputInfoList,
    GetSourceOutputInfo,
    GetSourceOutputInfoList,
    GetSampleInfo,
    GetSampleInfoList,
    Subscribe,
    SetSinkVolume,
    SetSinkInputVolume,
    SetSourceVolume,
    SetSinkMute,
    SetSourceMute,
    CorkPlaybackStream,
    FlushPlaybackStream,
    TriggerPlaybackStream,
    SetDefaultSink,
    SetDefaultSource,
    SetPlaybackStreamName,
    SetRecordStreamName,
    KillClient,
    KillSinkInput,
    KillSourceOutput,
    LoadModule,
    UnloadModule,
    AddAutoloadObsolete,
    RemoveAutoloadObsolete,
    GetAutoloadInfoObsolete,
    GetAutoloadInfoListObsolete,
    GetRecordLatency,
    CorkRecordStream,
    FlushRecordStream,
    PrebufPlaybackStream,
    Request,
    Overflow,
    Underflow,
    PlaybackStreamKilled,
    RecordStreamKilled,
    SubscribeEvent,
    MoveSinkInput,
    MoveSourceOutput,
    SetSinkInputMute,
    SuspendSink,
    SuspendSource,
    SetPlaybackStreamBufferAttr,
    SetRecordStreamBufferAttr,
    UpdatePlaybackStreamSampleRate,
    UpdateRecordStreamSampleRate,
    PlaybackStreamSuspended,
    RecordStreamSuspended,
    PlaybackStreamMoved,
    RecordStreamMoved,
    UpdateRecordStreamProplist,
    UpdatePlaybackStreamProplist,
    UpdateClientProplist,
    RemoveRecordStreamProplist,
    RemovePlaybackStreamProplist,
    RemoveClientProplist,
    Started,
    Extension,
    GetCardInfo,
    GetCardInfoList,
    SetCardProfile,
    ClientEvent,
    PlaybackStreamEvent,
    RecordStreamEvent,
    PlaybackBufferAttrChanged,
    RecordBufferAttrChanged,
    SetSinkPort,
    SetSourcePort,
    SetSourceOutputVolume,
    SetSourceOutputMute,
    SetPortLatencyOffset,
    EnableSrbchannel,
    DisableSrbchannel,
    RegisterMemfdShmid,
}

impl Opcode {
    /// The number that stands for the opcode on the wire.
    pub open spec fn spec_as_u32(self) -> u32 {
        match self {
            Opcode::Error => 0,
            Opcode::Timeout => 1,
            Opcode::Reply => 2,
            Opcode::CreatePlaybackStream => 3,
            Opcode::DeletePlaybackStream => 4,
            Opcode::CreateRecordStream => 5,
            Opcode::DeleteRecordStream => 6,
            Opcode::Exit => 7,
            Opcode::Auth => 8,
            Opcode::SetClientName => 9,
            Opcode::LookupSink => 10,
            Opcode::LookupSource => 11,
            Opcode::DrainPlaybackStream => 12,
            Opcode::Stat => 13,
            Opcode::GetPlaybackLatency => 14,
            Opcode::CreateUploadStream => 15,
            Opcode::DeleteUploadStream => 16,
            Opcode::FinishUploadStream => 17,
            Opcode::PlaySample => 18,
            Opcode::RemoveSample => 19,
            Opcode::GetServerInfo => 20,
            Opcode::GetSinkInfo => 21,
            Opcode::GetSinkInfoList => 22,
            Opcode::GetSourceInfo => 23,
            Opcode::GetSourceInfoList => 24,
            Opcode::GetModuleInfo => 25,
            Opcode::GetModuleInfoList => 26,
            Opcode::GetClientInfo => 27,
            Opcode::GetClientInfoList => 28,
            Opcode::GetSinkInputInfo => 29,
            Opcode::GetSinkInputInfoList => 30,
            Opcode::GetSourceOutputInfo => 31,
            Opcode::GetSourceOutputInfoList => 32,
            Opcode::GetSampleInfo => 33,
            Opcode::GetSampleInfoList => 34,
            Opcode::Subscribe => 35,
            Opcode::SetSinkVolume => 36,
            Opcode::SetSinkInputVolume => 37,
            Opcode::SetSourceVolume => 38,
            Opcode::SetSinkMute => 39,
            Opcode::SetSourceMute => 40,
            Opcode::CorkPlaybackStream => 41,
            Opcode::FlushPlaybackStream => 42,
            Opcode::TriggerPlaybackStream => 43,
            Opcode::SetDefaultSink => 44,
            Opcode::SetDefaultSource => 45,
            Opcode::SetPlaybackStreamName => 46,
            Opcode::SetRecordStreamName => 47,
            Opcode::KillClient => 48,
            Opcode::KillSinkInput => 49,
            Opcode::KillSourceOutput => 50,
            Opcode::LoadModule => 51,
            Opcode::UnloadModule => 52,
            Opcode::AddAutoloadObsolete => 53,
            Opcode::RemoveAutoloadObsolete => 54,
            Opcode::GetAutoloadInfoObsolete => 55,
            Opcode::GetAutoloadInfoListObsolete => 56,
            Opcode::GetRecordLatency => 57,
            Opcode::CorkRecordStream => 58,
            Opcode::FlushRecordStream => 59,
            Opcode::PrebufPlaybackStream => 60,
            Opcode::Request => 61,
            Opcode::Overflow => 62,
            Opcode::Underflow => 63,
            Opcode::PlaybackStreamKilled => 64,
            Opcode::RecordStreamKilled => 65,
            Opcode::SubscribeEvent => 66,
            Opcode::MoveSinkInput => 67,
            Opcode::MoveSourceOutput => 68,
            Opcode::SetSinkInputMute => 69,
            Opcode::SuspendSink => 70,
            Opcode::SuspendSource => 71,
            Opcode::SetPlaybackStreamBufferAttr => 72,
            Opcode::SetRecordStreamBufferAttr => 73,
            Opcode::UpdatePlaybackStreamSampleRate => 74,
            Opcode::UpdateRecordStreamSampleRate => 75,
            Opcode::PlaybackStreamSuspended => 76,
            Opcode::RecordStreamSuspended => 77,
            Opcode::PlaybackStreamMoved => 78,
            Opcode::RecordStreamMoved => 79,
            Opcode::UpdateRecordStreamProplist => 80,
            Opcode::UpdatePlaybackStreamProplist => 81,
            Opcode::UpdateClientProplist => 82,
            Opcode::RemoveRecordStreamProplist => 83,
            Opcode::RemovePlaybackStreamProplist => 84,
            Opcode::RemoveClientProplist => 85,
            Opcode::Started => 86,
            Opcode::Extension => 87,
            Opcode::GetCardInfo => 88,
            Opcode::GetCardInfoList => 89,
            Opcode::SetCardProfile => 90,
            Opcode::ClientEvent => 91,
            Opcode::PlaybackStreamEvent => 92,
            Opcode::RecordStreamEvent => 93,
            Opcode::PlaybackBufferAttrChanged => 94,
            Opcode::RecordBufferAttrChanged => 95,
            Opcode::SetSinkPort => 96,
            Opcode::SetSourcePort => 97,
            Opcode::SetSourceOutputVolume => 98,
            Opcode::SetSourceOutputMute => 99,
            Opcode::SetPortLatencyOffset => 100,
            Opcode::EnableSrbchannel => 101,
            Opcode::DisableSrbchannel => 102,
            Opcode::RegisterMemfdShmid => 103,
        }
    }

    /// The opcode that a number stands for, if it stands for one.
    pub open spec fn spec_from_u32(raw: u32) -> Option<Opcode> {
        if raw == 0 {
            Some(Opcode::Error)
        } else if raw == 1 {
            Some(Opcode::Timeout)
        } else if raw == 2 {
            Some(Opcode::Reply)
        } else if raw == 3 {
            Some(Opcode::CreatePlaybackStream)
        } else if raw == 4 {
            Some(Opcode::DeletePlaybackStream)
        } else if raw == 5 {
            Some(Opcode::CreateRecordStream)
        } else if raw == 6 {
            Some(Opcode::DeleteRecordStream)
        } else if raw == 7 {
            Some(Opcode::Exit)
        } else if raw == 8 {
            Some(Opcode::Auth)
        } else if raw == 9 {
            Some(Opcode::SetClientName)
        } else if raw == 10 {
            Some(Opcode::LookupSink)
        } else if raw == 11 {
            Some(Opcode::LookupSource)
        } else if raw == 12 {
            Some(Opcode::DrainPlaybackStream)
        } else if raw == 13 {
            Some(Opcode::Stat)
        } else if raw == 14 {
            Some(Opcode::GetPlaybackLatency)
        } else if raw == 15 {
            Some(Opcode::CreateUploadStream)
        } else if raw == 16 {
            Some(Opcode::DeleteUploadStream)
        } else if raw == 17 {
            Some(Opcode::FinishUploadStream)
        } else if raw == 18 {
            Some(Opcode::PlaySample)
        } else if raw == 19 {
            Some(Opcode::RemoveSample)
        } else if raw == 20 {
            Some(Opcode::GetServerInfo)
        } else if raw == 21 {
            Some(Opcode::GetSinkInfo)
        } else if raw == 22 {
            Some(Opcode::GetSinkInfoList)
        } else if raw == 23 {
            Some(Opcode::GetSourceInfo)
        } else if raw == 24 {
            Some(Opcode::GetSourceInfoList)
        } else if raw == 25 {
            Some(Opcode::GetModuleInfo)
        } else if raw == 26 {
            Some(Opcode::GetModuleInfoList)
        } else if raw == 27 {
            Some(Opcode::GetClientInfo)
        } else if raw == 28 {
            Some(Opcode::GetClientInfoList)
        } else if raw == 29 {
            Some(Opcode::GetSinkInputInfo)
        } else if raw == 30 {
            Some(Opcode::GetSinkInputInfoList)
        } else if raw == 31 {
            Some(Opcode::GetSourceOutputInfo)
        } else if raw == 32 {
            Some(Opcode::GetSourceOutputInfoList)
        } else if raw == 33 {
            Some(Opcode::GetSampleInfo)
        } else if raw == 34 {
            Some(Opcode::GetSampleInfoList)
        } else if raw == 35 {
            Some(Opcode::Subscribe)
        } else if raw == 36 {
            Some(Opcode::SetSinkVolume)
        } else if raw == 37 {
            Some(Opcode::SetSinkInputVolume)
        } else if raw == 38 {
            Some(Opcode::SetSourceVolume)
        } else if raw == 39 {
            Some(Opcode::SetSinkMute)
        } else if raw == 40 {
            Some(Opcode::SetSourceMute)
        } else if raw == 41 {
            Some(Opcode::CorkPlaybackStream)
        } else if raw == 42 {
            Some(Opcode::FlushPlaybackStream)
        } else if raw == 43 {
            Some(Opcode::TriggerPlaybackStream)
        } else if raw == 44 {
            Some(Opcode::SetDefaultSink)
        } else if raw == 45 {
            Some(Opcode::SetDefaultSource)
        } else if raw == 46 {
            Some(Opcode::SetPlaybackStreamName)
        } else if raw == 47 {
            Some(Opcode::SetRecordStreamName)
        } else if raw == 48 {
            Some(Opcode::KillClient)
        } else if raw == 49 {
            Some(Opcode::KillSinkInput)
        } else if raw == 50 {
            Some(Opcode::KillSourceOutput)
        } else if raw == 51 {
            Some(Opcode::LoadModule)
        } else if raw == 52 {
            Some(Opcode::UnloadModule)
        } else if raw == 53 {
            Some(Opcode::AddAutoloadObsolete)
        } else if raw == 54 {
            Some(Opcode::RemoveAutoloadObsolete)
        } else if raw == 55 {
            Some(Opcode::GetAutoloadInfoObsolete)
        } else if raw == 56 {
            Some(Opcode::GetAutoloadInfoListObsolete)
        } else if raw == 57 {
            Some(Opcode::GetRecordLatency)
        } else if raw == 58 {
            Some(Opcode::CorkRecordStream)
        } else if raw == 59 {
            Some(Opcode::FlushRecordStream)
        } else if raw == 60 {
            Some(Opcode::PrebufPlaybackStream)
        } else if raw == 61 {
            Some(Opcode::Request)
        } else if raw == 62 {
            Some(Opcode::Overflow)
        } else if raw == 63 {
            Some(Opcode::Underflow)
        } else if raw == 64 {
            Some(Opcode::PlaybackStreamKilled)
        } else if raw == 65 {
            Some(Opcode::RecordStreamKilled)
        } else if raw == 66 {
            Some(Opcode::SubscribeEvent)
        } else if raw == 67 {
            Some(Opcode::MoveSinkInput)
        } else if raw == 68 {
            Some(Opcode::MoveSourceOutput)
        } else if raw == 69 {
            Some(Opcode::SetSinkInputMute)
        } else if raw == 70 {
            Some(Opcode::SuspendSink)
        } else if raw == 71 {
            Some(Opcode::SuspendSource)
        } else if raw == 72 {
            Some(Opcode::SetPlaybackStreamBufferAttr)
        } else if raw == 73 {
            Some(Opcode::SetRecordStreamBufferAttr)
        } else if raw == 74 {
            Some(Opcode::UpdatePlaybackStreamSampleRate)
        } else if raw == 75 {
            Some(Opcode::UpdateRecordStreamSampleRate)
        } else if raw == 76 {
            Some(Opcode::PlaybackStreamSuspended)
        } else if raw == 77 {
            Some(Opcode::RecordStreamSuspended)
        } else if raw == 78 {
            Some(Opcode::PlaybackStreamMoved)
        } else if raw == 79 {
            Some(Opcode::RecordStreamMoved)
        } else if raw == 80 {
            Some(Opcode::UpdateRecordStreamProplist)
        } else if raw == 81 {
            Some(Opcode::UpdatePlaybackStreamProplist)
        } else if raw == 82 {
            Some(Opcode::UpdateClientProplist)
        } else if raw == 83 {
            Some(Opcode::RemoveRecordStreamProplist)
        } else if raw == 84 {
            Some(Opcode::RemovePlaybackStreamProplist)
        } else if raw == 85 {
            Some(Opcode::RemoveClientProplist)
        } else if raw == 86 {
            Some(Opcode::Started)
        } else if raw == 87 {
            Some(Opcode::Extension)
        } else if raw == 88 {
            Some(Opcode::GetCardInfo)
        } else if raw == 89 {
            Some(Opcode::GetCardInfoList)
        } else if raw == 90 {
            Some(Opcode::SetCardProfile)
        } else if raw == 91 {
            Some(Opcode::ClientEvent)
        } else if raw == 92 {
            Some(Opcode::PlaybackStreamEvent)
        } else if raw == 93 {
            Some(Opcode::RecordStreamEvent)
        } else if raw == 94 {
            Some(Opcode::PlaybackBufferAttrChanged)
        } else if raw == 95 {
            Some(Opcode::RecordBufferAttrChanged)
        } else if raw == 96 {
            Some(Opcode::SetSinkPort)
        } else if raw == 97 {
            Some(Opcode::SetSourcePort)
        } else if raw == 98 {
            Some(Opcode::SetSourceOutputVolume)
        } else if raw == 99 {
            Some(Opcode::SetSourceOutputMute)
        } else if raw == 100 {
            Some(Opcode::SetPortLatencyOffset)
        } else if raw == 101 {
            Some(Opcode::EnableSrbchannel)
        } else if raw == 102 {
            Some(Opcode::DisableSrbchannel)
        } else if raw == 103 {
            Some(Opcode::RegisterMemfdShmid)
        } else {
            None
        }
    }

    /// Gets the number that stands for the opcode on the wire.
    pub fn as_u32(self) -> (raw: u32)
        ensures
            raw == self.spec_as_u32(),
            raw < OPCODE_COUNT,
    {
        match self {
            Opcode::Error => 0,
            Opcode::Timeout => 1,
            Opcode::Reply => 2,
            Opcode::CreatePlaybackStream => 3,
            Opcode::DeletePlaybackStream => 4,
            Opcode::CreateRecordStream => 5,
            Opcode::DeleteRecordStream => 6,
            Opcode::Exit => 7,
            Opcode::Auth => 8,
            Opcode::SetClientName => 9,
            Opcode::LookupSink => 10,
            Opcode::LookupSource => 11,
            Opcode::DrainPlaybackStream => 12,
            Opcode::Stat => 13,
            Opcode::GetPlaybackLatency => 14,
            Opcode::CreateUploadStream => 15,
            Opcode::DeleteUploadStream => 16,
            Opcode::FinishUploadStream => 17,
            Opcode::PlaySample => 18,
            Opcode::RemoveSample => 19,
            Opcode::GetServerInfo => 20,
            Opcode::GetSinkInfo => 21,
            Opcode::GetSinkInfoList => 22,
            Opcode::GetSourceInfo => 23,
            Opcode::GetSourceInfoList => 24,
            Opcode::GetModuleInfo => 25,
            Opcode::GetModuleInfoList => 26,
            Opcode::GetClientInfo => 27,
            Opcode::GetClientInfoList => 28,
            Opcode::GetSinkInputInfo => 29,
            Opcode::GetSinkInputInfoList => 30,
            Opcode::GetSourceOutputInfo => 31,
            Opcode::GetSourceOutputInfoList => 32,
            Opcode::GetSampleInfo => 33,
            Opcode::GetSampleInfoList => 34,
            Opcode::Subscribe => 35,
            Opcode::SetSinkVolume => 36,
            Opcode::SetSinkInputVolume => 37,
            Opcode::SetSourceVolume => 38,
            Opcode::SetSinkMute => 39,
            Opcode::SetSourceMute => 40,
            Opcode::CorkPlaybackStream => 41,
            Opcode::FlushPlaybackStream => 42,
            Opcode::TriggerPlaybackStream => 43,
            Opcode::SetDefaultSink => 44,
            Opcode::SetDefaultSource => 45,
            Opcode::SetPlaybackStreamName => 46,
            Opcode::SetRecordStreamName => 47,
            Opcode::KillClient => 48,
            Opcode::KillSinkInput => 49,
            Opcode::KillSourceOutput => 50,
            Opcode::LoadModule => 51,
            Opcode::UnloadModule => 52,
            Opcode::AddAutoloadObsolete => 53,
            Opcode::RemoveAutoloadObsolete => 54,
            Opcode::GetAutoloadInfoObsolete => 55,
            Opcode::GetAutoloadInfoListObsolete => 56,
            Opcode::GetRecordLatency => 57,
            Opcode::CorkRecordStream => 58,
            Opcode::FlushRecordStream => 59,
            Opcode::PrebufPlaybackStream => 60,
            Opcode::Request => 61,
            Opcode::Overflow => 62,
            Opcode::Underflow => 63,
            Opcode::PlaybackStreamKilled => 64,
            Opcode::RecordStreamKilled => 65,
            Opcode::SubscribeEvent => 66,
            Opcode::MoveSinkInput => 67,
            Opcode::MoveSourceOutput => 68,
            Opcode::SetSinkInputMute => 69,
            Opcode::SuspendSink => 70,
            Opcode::SuspendSource => 71,
            Opcode::SetPlaybackStreamBufferAttr => 72,
            Opcode::SetRecordStreamBufferAttr => 73,
            Opcode::UpdatePlaybackStreamSampleRate => 74,
            Opcode::UpdateRecordStreamSampleRate => 75,
            Opcode::PlaybackStreamSuspended => 76,
            Opcode::RecordStreamSuspended => 77,
            Opcode::PlaybackStreamMoved => 78,
            Opcode::RecordStreamMoved => 79,
            Opcode::UpdateRecordStreamProplist => 80,
            Opcode::UpdatePlaybackStreamProplist => 81,
            Opcode::UpdateClientProplist => 82,
            Opcode::RemoveRecordStreamProplist => 83,
            Opcode::RemovePlaybackStreamProplist => 84,
            Opcode::RemoveClientProplist => 85,
            Opcode::Started => 86,
            Opcode::Extension => 87,
            Opcode::GetCardInfo => 88,
            Opcode::GetCardInfoList => 89,
            Opcode::SetCardProfile => 90,
            Opcode::ClientEvent => 91,
            Opcode::PlaybackStreamEvent => 92,
            Opcode::RecordStreamEvent => 93,
            Opcode::PlaybackBufferAttrChanged => 94,
            Opcode::RecordBufferAttrChanged => 95,
            Opcode::SetSinkPort => 96,
            Opcode::SetSourcePort => 97,
            Opcode::SetSourceOutputVolume => 98,
            Opcode::SetSourceOutputMute => 99,
            Opcode::SetPortLatencyOffset => 100,
            Opcode::EnableSrbchannel => 101,
            Opcode::DisableSrbchannel => 102,
            Opcode::RegisterMemfdShmid => 103,
        }
    }

    /// Reads an opcode from the number that stands for it. Numbers from `OPCODE_COUNT` on stand
    /// for none.
    pub fn from_u32(raw: u32) -> (opcode: Option<Opcode>)
        ensures
            opcode == Self::spec_from_u32(raw),
            opcode is Some <==> raw < OPCODE_COUNT,
            opcode matches Some(o) ==> o.spec_as_u32() == raw,
    {
        match raw {
            0 => Some(Opcode::Error),
            1 => Some(Opcode::Timeout),
            2 => Some(Opcode::Reply),
            3 => Some(Opcode::CreatePlaybackStream),
            4 => Some(Opcode::DeletePlaybackStream),
            5 => Some(Opcode::CreateRecordStream),
            6 => Some(Opcode::DeleteRecordStream),
            7 => Some(Opcode::Exit),
            8 => Some(Opcode::Auth),
            9 => Some(Opcode::SetClientName),
            10 => Some(Opcode::LookupSink),
            11 => Some(Opcode::LookupSource),
            12 => Some(Opcode::DrainPlaybackStream),
            13 => Some(Opcode::Stat),
            14 => Some(Opcode::GetPlaybackLatency),
            15 => Some(Opcode::CreateUploadStream),
            16 => Some(Opcode::DeleteUploadStream),
            17 => Some(Opcode::FinishUploadStream),
            18 => Some(Opcode::PlaySample),
            19 => Some(Opcode::RemoveSample),
            20 => Some(Opcode::GetServerInfo),
            21 => Some(Opcode::GetSinkInfo),
            22 => Some(Opcode::GetSinkInfoList),
            23 => Some(Opcode::GetSourceInfo),
            24 => Some(Opcode::GetSourceInfoList),
            25 => Some(Opcode::GetModuleInfo),
            26 => Some(Opcode::GetModuleInfoList),
            27 => Some(Opcode::GetClientInfo),
            28 => Some(Opcode::GetClientInfoList),
            29 => Some(Opcode::GetSinkInputInfo),
            30 => Some(Opcode::GetSinkInputInfoList),
            31 => Some(Opcode::GetSourceOutputInfo),
            32 => Some(Opcode::GetSourceOutputInfoList),
            33 => Some(Opcode::GetSampleInfo),
            34 => Some(Opcode::GetSampleInfoList),
            35 => Some(Opcode::Subscribe),
            36 => Some(Opcode::SetSinkVolume),
            37 => Some(Opcode::SetSinkInputVolume),
            38 => Some(Opcode::SetSourceVolume),
            39 => Some(Opcode::SetSinkMute),
            40 => Some(Opcode::SetSourceMute),
            41 => Some(Opcode::CorkPlaybackStream),
            42 => Some(Opcode::FlushPlaybackStream),
            43 => Some(Opcode::TriggerPlaybackStream),
            44 => Some(Opcode::SetDefaultSink),
            45 => Some(Opcode::SetDefaultSource),
            46 => Some(Opcode::SetPlaybackStreamName),
            47 => Some(Opcode::SetRecordStreamName),
            48 => Some(Opcode::KillClient),
            49 => Some(Opcode::KillSinkInput),
            50 => Some(Opcode::KillSourceOutput),
            51 => Some(Opcode::LoadModule),
            52 => Some(Opcode::UnloadModule),
            53 => Some(Opcode::AddAutoloadObsolete),
            54 => Some(Opcode::RemoveAutoloadObsolete),
            55 => Some(Opcode::GetAutoloadInfoObsolete),
            56 => Some(Opcode::GetAutoloadInfoListObsolete),
            57 => Some(Opcode::GetRecordLatency),
            58 => Some(Opcode::CorkRecordStream),
            59 => Some(Opcode::FlushRecordStream),
            60 => Some(Opcode::PrebufPlaybackStream),
            61 => Some(Opcode::Request),
            62 => Some(Opcode::Overflow),
            63 => Some(Opcode::Underflow),
            64 => Some(Opcode::PlaybackStreamKilled),
            65 => Some(Opcode::RecordStreamKilled),
            66 => Some(Opcode::SubscribeEvent),
            67 => Some(Opcode::MoveSinkInput),
            68 => Some(Opcode::MoveSourceOutput),
            69 => Some(Opcode::SetSinkInputMute),
            70 => Some(Opcode::SuspendSink),
            71 => Some(Opcode::SuspendSource),
            72 => Some(Opcode::SetPlaybackStreamBufferAttr),
            73 => Some(Opcode::SetRecordStreamBufferAttr),
            74 => Some(Opcode::UpdatePlaybackStreamSampleRate),
            75 => Some(Opcode::UpdateRecordStreamSampleRate),
            76 => Some(Opcode::PlaybackStreamSuspended),
            77 => Some(Opcode::RecordStreamSuspended),
            78 => Some(Opcode::PlaybackStreamMoved),
            79 => Some(Opcode::RecordStreamMoved),
            80 => Some(Opcode::UpdateRecordStreamProplist),
            81 => Some(Opcode::UpdatePlaybackStreamProplist),
            82 => Some(Opcode::UpdateClientProplist),
            83 => Some(Opcode::RemoveRecordStreamProplist),
            84 => Some(Opcode::RemovePlaybackStreamProplist),
            85 => Some(Opcode::RemoveClientProplist),
            86 => Some(Opcode::Started),
            87 => Some(Opcode::Extension),
            88 => Some(Opcode::GetCardInfo),
            89 => Some(Opcode::GetCardInfoList),
            90 => Some(Opcode::SetCardProfile),
            91 => Some(Opcode::ClientEvent),
            92 => Some(Opcode::PlaybackStreamEvent),
            93 => Some(Opcode::RecordStreamEvent),
            94 => Some(Opcode::PlaybackBufferAttrChanged),
            95 => Some(Opcode::RecordBufferAttrChanged),
            96 => Some(Opcode::SetSinkPort),
            97 => Some(Opcode::SetSourcePort),
            98 => Some(Opcode::SetSourceOutputVolume),
            99 => Some(Opcode::SetSourceOutputMute),
            100 => Some(Opcode::SetPortLatencyOffset),
            101 => Some(Opcode::EnableSrbchannel),
            102 => Some(Opcode::DisableSrbchannel),
            103 => Some(Opcode::RegisterMemfdShmid),
            _ => None,
        }
    }
}

/// Reading an opcode back from its own number gives the opcode again.
pub proof fn lemma_opcode_roundtrip(opcode: Opcode)
    ensures
        Opcode::spec_from_u32(opcode.spec_as_u32()) == Some(opcode),
{
}

} // verus!
