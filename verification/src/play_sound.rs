//! Which clips announce a climb: the alarm jingle, the climber's voice
//! line and the floor call-out. The clips themselves are audio that the
//! program around the library decodes and plays.
use rand::seq::SliceRandom;
use vstd::prelude::*;
use vstd::string::*;

verus! {

/// How a climb is announced.
#[derive(Debug, Clone, Copy, PartialEq, Eq, Structural)]
pub enum SoundTheme {
    Announcer,
    CustomSound,
}

/// The voice line that names a climber.
#[derive(Debug, Clone, Copy, PartialEq, Eq, Structural)]
pub enum Voice {
    Bren,
    Elconn,
    Hazard,
    Lars,
    Mudda,
    Schmaniol,
    Scrapie,
    Simo,
    Samifying,
    Ixxonn,
    Clover,
    Skandear,
    Granadyy,
    Jxliano,
    Mtat,
    Gunafunkurmonky,
    Bijanz,
    Talliebird,
    Warl,
    Dam,
    Jave,
    Hugo,
    Birdie,
    Tres,
    Tylerz,
    Youronlyhope7,
    Hefest,
    Massa,
    Carljr,
    Marius,
    Wally,
    /// Any climber without a line of their own.
    Someone,
}

/// One audio clip of the announcer.
#[derive(Debug, Clone, Copy, PartialEq, Eq, Structural)]
pub enum Clip {
    /// "... has reached floor".
    HasReachedFloor,
    /// The number of a floor, from 1 to 16.
    FloorNumber(u8),
    /// "... is approaching the end".
    IsApproachingTheEnd,
    /// The plain alarm.
    AlarmAlarm,
    /// The alarm jingles.
    Alarm12,
    Alarm14,
    Alarm16,
    /// The line naming a climber.
    Player(Voice),
}

/// The climber whose user id is `wsid`, by the voice line that names them.
pub open spec fn voice_for(wsid: Seq<char>) -> Voice {
    if wsid == "5d6b14db-4d41-47a4-93e2-36a3bf229f9b"@ {
        Voice::Bren
    } else if wsid == "d46fb45d-d422-47c9-9785-67270a311e25"@ {
        Voice::Elconn
    } else if wsid == "e5a9863b-1844-4436-a8a8-cea583888f8b"@ {
        Voice::Hazard
    } else if wsid == "e3ff2309-bc24-414a-b9f1-81954236c34b"@ {
        Voice::Lars
    } else if wsid == "d320a237-1b0a-4069-af83-f2c09fbf042e"@ {
        Voice::Mudda
    } else if wsid == "0fd26a9f-8f70-4f51-85e1-fe99a4ed6ffb"@ {
        Voice::Schmaniol
    } else if wsid == "da4642f9-6acf-43fe-88b6-b120ff1308ba"@ {
        Voice::Scrapie
    } else if wsid == "803695f6-8319-4b8e-8c28-44856834fe3b"@ {
        Voice::Simo
    } else if wsid == "f37147a8-36f3-4c58-9577-bf0faff3aafa"@ {
        Voice::Samifying
    } else if wsid == "af30b7a1-fc37-485f-94bf-f00e39805d8c"@ {
        Voice::Ixxonn
    } else if wsid == "076d23a5-51a6-48aa-8d99-9d618cd13c93"@ {
        Voice::Clover
    } else if wsid == "c1e8bbec-8bb3-40b3-9b0e-52e3cb36015e"@ {
        Voice::Skandear
    } else if wsid == "05477e79-25fd-48c2-84c7-e1621aa46517"@ {
        Voice::Granadyy
    } else if wsid == "ed14ac85-1252-4cc7-8efd-49cd72938f9d"@ {
        Voice::Jxliano
    } else if wsid == "fc54a67c-7bd3-4b33-aa7d-a77f13a7b621"@ {
        Voice::Mtat
    } else if wsid == "a65ad790-180b-44cb-8643-7e1e87d15a83"@ {
        Voice::Gunafunkurmonky
    } else if wsid == "f2220e91-6de5-41c4-b4c9-986cefee0c3f"@ {
        Voice::Bijanz
    } else if wsid == "a4699c4c-e6c1-4005-86f6-55888f854e6f"@ {
        Voice::Talliebird
    } else if wsid == "3ac715f3-8838-45de-a165-78db581ee084"@ {
        Voice::Warl
    } else if wsid == "80b2989a-5a17-4d23-b134-46cce29571fa"@ {
        Voice::Dam
    } else if wsid == "ce9e4eb6-be30-429c-9487-20ce620c2de8"@ {
        Voice::Jave
    } else if wsid == "3433b0f2-5acd-47a8-b32c-8c811c984a9f"@ {
        Voice::Hugo
    } else if wsid == "e07e9ea9-daa5-4496-9908-9680e35da02b"@ {
        Voice::Birdie
    } else if wsid == "2f5735f4-04e5-4c9c-a60a-780648c02611"@ {
        Voice::Tres
    } else if wsid == "908bfb12-b5e4-4342-ac68-4e61217375e2"@ {
        Voice::Tylerz
    } else if wsid == "c1299945-2692-42dd-b28d-03c32dea8768"@ {
        Voice::Youronlyhope7
    } else if wsid == "06496fad-70f7-49bc-80c6-d62caa7a9de4"@ {
        Voice::Hefest
    } else if wsid == "b05db0f8-d845-47d2-b0e5-795717038ac6"@ {
        Voice::Massa
    } else if wsid == "0c857beb-fd95-4449-a669-21fb310cacae"@ {
        Voice::Carljr
    } else if wsid == "794a286c-44d9-4276-83ce-431cba7bab74"@ {
        Voice::Marius
    } else if wsid == "011b6ce7-e49d-4fba-beeb-7650bbb26557"@ {
        Voice::Wally
    } else {
        Voice::Someone
    }
}

/// Each climber with a voice line of their own is announced by that line
/// alone: a user id gives a climber's voice exactly when it is that
/// climber's id, so distinct known ids give distinct voices, and every
/// other id gives "someone".
pub proof fn lemma_voice_belongs_to_one_id(wsid: Seq<char>)
    ensures
        voice_for(wsid) == Voice::Bren <==> wsid == "5d6b14db-4d41-47a4-93e2-36a3bf229f9b"@,
        voice_for(wsid) == Voice::Elconn <==> wsid == "d46fb45d-d422-47c9-9785-67270a311e25"@,
        voice_for(wsid) == Voice::Hazard <==> wsid == "e5a9863b-1844-4436-a8a8-cea583888f8b"@,
        voice_for(wsid) == Voice::Lars <==> wsid == "e3ff2309-bc24-414a-b9f1-81954236c34b"@,
        voice_for(wsid) == Voice::Mudda <==> wsid == "d320a237-1b0a-4069-af83-f2c09fbf042e"@,
        voice_for(wsid) == Voice::Schmaniol <==> wsid == "0fd26a9f-8f70-4f51-85e1-fe99a4ed6ffb"@,
        voice_for(wsid) == Voice::Scrapie <==> wsid == "da4642f9-6acf-43fe-88b6-b120ff1308ba"@,
        voice_for(wsid) == Voice::Simo <==> wsid == "803695f6-8319-4b8e-8c28-44856834fe3b"@,
        voice_for(wsid) == Voice::Samifying <==> wsid == "f37147a8-36f3-4c58-9577-bf0faff3aafa"@,
        voice_for(wsid) == Voice::Ixxonn <==> wsid == "af30b7a1-fc37-485f-94bf-f00e39805d8c"@,
        voice_for(wsid) == Voice::Clover <==> wsid == "076d23a5-51a6-48aa-8d99-9d618cd13c93"@,
        voice_for(wsid) == Voice::Skandear <==> wsid == "c1e8bbec-8bb3-40b3-9b0e-52e3cb36015e"@,
        voice_for(wsid) == Voice::Granadyy <==> wsid == "05477e79-25fd-48c2-84c7-e1621aa46517"@,
        voice_for(wsid) == Voice::Jxliano <==> wsid == "ed14ac85-1252-4cc7-8efd-49cd72938f9d"@,
        voice_for(wsid) == Voice::Mtat <==> wsid == "fc54a67c-7bd3-4b33-aa7d-a77f13a7b621"@,
        voice_for(wsid) == Voice::Gunafunkurmonky <==> wsid == "a65ad790-180b-44cb-8643-7e1e87d15a83"@,
        voice_for(wsid) == Voice::Bijanz <==> wsid == "f2220e91-6de5-41c4-b4c9-986cefee0c3f"@,
        voice_for(wsid) == Voice::Talliebird <==> wsid == "a4699c4c-e6c1-4005-86f6-55888f854e6f"@,
        voice_for(wsid) == Voice::Warl <==> wsid == "3ac715f3-8838-45de-a165-78db581ee084"@,
        voice_for(wsid) == Voice::Dam <==> wsid == "80b2989a-5a17-4d23-b134-46cce29571fa"@,
        voice_for(wsid) == Voice::Jave <==> wsid == "ce9e4eb6-be30-429c-9487-20ce620c2de8"@,
        voice_for(wsid) == Voice::Hugo <==> wsid == "3433b0f2-5acd-47a8-b32c-8c811c984a9f"@,
        voice_for(wsid) == Voice::Birdie <==> wsid == "e07e9ea9-daa5-4496-9908-9680e35da02b"@,
        voice_for(wsid) == Voice::Tres <==> wsid == "2f5735f4-04e5-4c9c-a60a-780648c02611"@,
        voice_for(wsid) == Voice::Tylerz <==> wsid == "908bfb12-b5e4-4342-ac68-4e61217375e2"@,
        voice_for(wsid) == Voice::Youronlyhope7 <==> wsid == "c1299945-2692-42dd-b28d-03c32dea8768"@,
        voice_for(wsid) == Voice::Hefest <==> wsid == "06496fad-70f7-49bc-80c6-d62caa7a9de4"@,
        voice_for(wsid) == Voice::Massa <==> wsid == "b05db0f8-d845-47d2-b0e5-795717038ac6"@,
        voice_for(wsid) == Voice::Carljr <==> wsid == "0c857beb-fd95-4449-a669-21fb310cacae"@,
        voice_for(wsid) == Voice::Marius <==> wsid == "794a286c-44d9-4276-83ce-431cba7bab74"@,
        voice_for(wsid) == Voice::Wally <==> wsid == "011b6ce7-e49d-4fba-beeb-7650bbb26557"@,
{
    reveal_strlit("5d6b14db-4d41-47a4-93e2-36a3bf229f9b");
    reveal_strlit("d46fb45d-d422-47c9-9785-67270a311e25");
    reveal_strlit("e5a9863b-1844-4436-a8a8-cea583888f8b");
    reveal_strlit("e3ff2309-bc24-414a-b9f1-81954236c34b");
    reveal_strlit("d320a237-1b0a-4069-af83-f2c09fbf042e");
    reveal_strlit("0fd26a9f-8f70-4f51-85e1-fe99a4ed6ffb");
    reveal_strlit("da4642f9-6acf-43fe-88b6-b120ff1308ba");
    reveal_strlit("803695f6-8319-4b8e-8c28-44856834fe3b");
    reveal_strlit("f37147a8-36f3-4c58-9577-bf0faff3aafa");
    reveal_strlit("af30b7a1-fc37-485f-94bf-f00e39805d8c");
    reveal_strlit("076d23a5-51a6-48aa-8d99-9d618cd13c93");
    reveal_strlit("c1e8bbec-8bb3-40b3-9b0e-52e3cb36015e");
    reveal_strlit("05477e79-25fd-48c2-84c7-e1621aa46517");
    reveal_strlit("ed14ac85-1252-4cc7-8efd-49cd72938f9d");
    reveal_strlit("fc54a67c-7bd3-4b33-aa7d-a77f13a7b621");
    reveal_strlit("a65ad790-180b-44cb-8643-7e1e87d15a83");
    reveal_strlit("f2220e91-6de5-41c4-b4c9-986cefee0c3f");
    reveal_strlit("a4699c4c-e6c1-4005-86f6-55888f854e6f");
    reveal_strlit("3ac715f3-8838-45de-a165-78db581ee084");
    reveal_strlit("80b2989a-5a17-4d23-b134-46cce29571fa");
    reveal_strlit("ce9e4eb6-be30-429c-9487-20ce620c2de8");
    reveal_strlit("3433b0f2-5acd-47a8-b32c-8c811c984a9f");
    reveal_strlit("e07e9ea9-daa5-4496-9908-9680e35da02b");
    reveal_strlit("2f5735f4-04e5-4c9c-a60a-780648c02611");
    reveal_strlit("908bfb12-b5e4-4342-ac68-4e61217375e2");
    reveal_strlit("c1299945-2692-42dd-b28d-03c32dea8768");
    reveal_strlit("06496fad-70f7-49bc-80c6-d62caa7a9de4");
    reveal_strlit("b05db0f8-d845-47d2-b0e5-795717038ac6");
    reveal_strlit("0c857beb-fd95-4449-a669-21fb310cacae");
    reveal_strlit("794a286c-44d9-4276-83ce-431cba7bab74");
    reveal_strlit("011b6ce7-e49d-4fba-beeb-7650bbb26557");
    assert("5d6b14db-4d41-47a4-93e2-36a3bf229f9b"@[0] != "d46fb45d-d422-47c9-9785-67270a311e25"@[0]);
    assert("5d6b14db-4d41-47a4-93e2-36a3bf229f9b"@[0] != "e5a9863b-1844-4436-a8a8-cea583888f8b"@[0]);
    assert("5d6b14db-4d41-47a4-93e2-36a3bf229f9b"@[0] != "e3ff2309-bc24-414a-b9f1-81954236c34b"@[0]);
    assert("5d6b14db-4d41-47a4-93e2-36a3bf229f9b"@[0] != "d320a237-1b0a-4069-af83-f2c09fbf042e"@[0]);
    assert("5d6b14db-4d41-47a4-93e2-36a3bf229f9b"@[0] != "0fd26a9f-8f70-4f51-85e1-fe99a4ed6ffb"@[0]);
    assert("5d6b14db-4d41-47a4-93e2-36a3bf229f9b"@[0] != "da4642f9-6acf-43fe-88b6-b120ff1308ba"@[0]);
    assert("5d6b14db-4d41-47a4-93e2-36a3bf229f9b"@[0] != "803695f6-8319-4b8e-8c28-44856834fe3b"@[0]);
    assert("5d6b14db-4d41-47a4-93e2-36a3bf229f9b"@[0] != "f37147a8-36f3-4c58-9577-bf0faff3aafa"@[0]);
    assert("5d6b14db-4d41-47a4-93e2-36a3bf229f9b"@[0] != "af30b7a1-fc37-485f-94bf-f00e39805d8c"@[0]);
    assert("5d6b14db-4d41-47a4-93e2-36a3bf229f9b"@[0] != "076d23a5-51a6-48aa-8d99-9d618cd13c93"@[0]);
    assert("5d6b14db-4d41-47a4-93e2-36a3bf229f9b"@[0] != "c1e8bbec-8bb3-40b3-9b0e-52e3cb36015e"@[0]);
    assert("5d6b14db-4d41-47a4-93e2-36a3bf229f9b"@[0] != "05477e79-25fd-48c2-84c7-e1621aa46517"@[0]);
    assert("5d6b14db-4d41-47a4-93e2-36a3bf229f9b"@[0] != "ed14ac85-1252-4cc7-8efd-49cd72938f9d"@[0]);
    assert("5d6b14db-4d41-47a4-93e2-36a3bf229f9b"@[0] != "fc54a67c-7bd3-4b33-aa7d-a77f13a7b621"@[0]);
    assert("5d6b14db-4d41-47a4-93e2-36a3bf229f9b"@[0] != "a65ad790-180b-44cb-8643-7e1e87d15a83"@[0]);
    assert("5d6b14db-4d41-47a4-93e2-36a3bf229f9b"@[0] != "f2220e91-6de5-41c4-b4c9-986cefee0c3f"@[0]);
    assert("5d6b14db-4d41-47a4-93e2-36a3bf229f9b"@[0] != "a4699c4c-e6c1-4005-86f6-55888f854e6f"@[0]);
    assert("5d6b14db-4d41-47a4-93e2-36a3bf229f9b"@[0] != "3ac715f3-8838-45de-a165-78db581ee084"@[0]);
    assert("5d6b14db-4d41-47a4-93e2-36a3bf229f9b"@[0] != "80b2989a-5a17-4d23-b134-46cce29571fa"@[0]);
    assert("5d6b14db-4d41-47a4-93e2-36a3bf229f9b"@[0] != "ce9e4eb6-be30-429c-9487-20ce620c2de8"@[0]);
    assert("5d6b14db-4d41-47a4-93e2-36a3bf229f9b"@[0] != "3433b0f2-5acd-47a8-b32c-8c811c984a9f"@[0]);
    assert("5d6b14db-4d41-47a4-93e2-36a3bf229f9b"@[0] != "e07e9ea9-daa5-4496-9908-9680e35da02b"@[0]);
    assert("5d6b14db-4d41-47a4-93e2-36a3bf229f9b"@[0] != "2f5735f4-04e5-4c9c-a60a-780648c02611"@[0]);
    assert("5d6b14db-4d41-47a4-93e2-36a3bf229f9b"@[0] != "908bfb12-b5e4-4342-ac68-4e61217375e2"@[0]);
    assert("5d6b14db-4d41-47a4-93e2-36a3bf229f9b"@[0] != "c1299945-2692-42dd-b28d-03c32dea8768"@[0]);
    assert("5d6b14db-4d41-47a4-93e2-36a3bf229f9b"@[0] != "06496fad-70f7-49bc-80c6-d62caa7a9de4"@[0]);
    assert("5d6b14db-4d41-47a4-93e2-36a3bf229f9b"@[0] != "b05db0f8-d845-47d2-b0e5-795717038ac6"@[0]);
    assert("5d6b14db-4d41-47a4-93e2-36a3bf229f9b"@[0] != "0c857beb-fd95-4449-a669-21fb310cacae"@[0]);
    assert("5d6b14db-4d41-47a4-93e2-36a3bf229f9b"@[0] != "794a286c-44d9-4276-83ce-431cba7bab74"@[0]);
    assert("5d6b14db-4d41-47a4-93e2-36a3bf229f9b"@[0] != "011b6ce7-e49d-4fba-beeb-7650bbb26557"@[0]);
    assert("d46fb45d-d422-47c9-9785-67270a311e25"@[0] != "e5a9863b-1844-4436-a8a8-cea583888f8b"@[0]);
    assert("d46fb45d-d422-47c9-9785-67270a311e25"@[0] != "e3ff2309-bc24-414a-b9f1-81954236c34b"@[0]);
    assert("d46fb45d-d422-47c9-9785-67270a311e25"@[1] != "d320a237-1b0a-4069-af83-f2c09fbf042e"@[1]);
    assert("d46fb45d-d422-47c9-9785-67270a311e25"@[0] != "0fd26a9f-8f70-4f51-85e1-fe99a4ed6ffb"@[0]);
    assert("d46fb45d-d422-47c9-9785-67270a311e25"@[1] != "da4642f9-6acf-43fe-88b6-b120ff1308ba"@[1]);
    assert("d46fb45d-d422-47c9-9785-67270a311e25"@[0] != "803695f6-8319-4b8e-8c28-44856834fe3b"@[0]);
    assert("d46fb45d-d422-47c9-9785-67270a311e25"@[0] != "f37147a8-36f3-4c58-9577-bf0faff3aafa"@[0]);
    assert("d46fb45d-d422-47c9-9785-67270a311e25"@[0] != "af30b7a1-fc37-485f-94bf-f00e39805d8c"@[0]);
    assert("d46fb45d-d422-47c9-9785-67270a311e25"@[0] != "076d23a5-51a6-48aa-8d99-9d618cd13c93"@[0]);
    assert("d46fb45d-d422-47c9-9785-67270a311e25"@[0] != "c1e8bbec-8bb3-40b3-9b0e-52e3cb36015e"@[0]);
    assert("d46fb45d-d422-47c9-9785-67270a311e25"@[0] != "05477e79-25fd-48c2-84c7-e1621aa46517"@[0]);
    assert("d46fb45d-d422-47c9-9785-67270a311e25"@[0] != "ed14ac85-1252-4cc7-8efd-49cd72938f9d"@[0]);
    assert("d46fb45d-d422-47c9-9785-67270a311e25"@[0] != "fc54a67c-7bd3-4b33-aa7d-a77f13a7b621"@[0]);
    assert("d46fb45d-d422-47c9-9785-67270a311e25"@[0] != "a65ad790-180b-44cb-8643-7e1e87d15a83"@[0]);
    assert("d46fb45d-d422-47c9-9785-67270a311e25"@[0] != "f2220e91-6de5-41c4-b4c9-986cefee0c3f"@[0]);
    assert("d46fb45d-d422-47c9-9785-67270a311e25"@[0] != "a4699c4c-e6c1-4005-86f6-55888f854e6f"@[0]);
    assert("d46fb45d-d422-47c9-9785-67270a311e25"@[0] != "3ac715f3-8838-45de-a165-78db581ee084"@[0]);
    assert("d46fb45d-d422-47c9-9785-67270a311e25"@[0] != "80b2989a-5a17-4d23-b134-46cce29571fa"@[0]);
    assert("d46fb45d-d422-47c9-9785-67270a311e25"@[0] != "ce9e4eb6-be30-429c-9487-20ce620c2de8"@[0]);
    assert("d46fb45d-d422-47c9-9785-67270a311e25"@[0] != "3433b0f2-5acd-47a8-b32c-8c811c984a9f"@[0]);
    assert("d46fb45d-d422-47c9-9785-67270a311e25"@[0] != "e07e9ea9-daa5-4496-9908-9680e35da02b"@[0]);
    assert("d46fb45d-d422-47c9-9785-67270a311e25"@[0] != "2f5735f4-04e5-4c9c-a60a-780648c02611"@[0]);
    assert("d46fb45d-d422-47c9-9785-67270a311e25"@[0] != "908bfb12-b5e4-4342-ac68-4e61217375e2"@[0]);
    assert("d46fb45d-d422-47c9-9785-67270a311e25"@[0] != "c1299945-2692-42dd-b28d-03c32dea8768"@[0]);
    assert("d46fb45d-d422-47c9-9785-67270a311e25"@[0] != "06496fad-70f7-49bc-80c6-d62caa7a9de4"@[0]);
    assert("d46fb45d-d422-47c9-9785-67270a311e25"@[0] != "b05db0f8-d845-47d2-b0e5-795717038ac6"@[0]);
    assert("d46fb45d-d422-47c9-9785-67270a311e25"@[0] != "0c857beb-fd95-4449-a669-21fb310cacae"@[0]);
    assert("d46fb45d-d422-47c9-9785-67270a311e25"@[0] != "794a286c-44d9-4276-83ce-431cba7bab74"@[0]);
    assert("d46fb45d-d422-47c9-9785-67270a311e25"@[0] != "011b6ce7-e49d-4fba-beeb-7650bbb26557"@[0]);
    assert("e5a9863b-1844-4436-a8a8-cea583888f8b"@[1] != "e3ff2309-bc24-414a-b9f1-81954236c34b"@[1]);
    assert("e5a9863b-1844-4436-a8a8-cea583888f8b"@[0] != "d320a237-1b0a-4069-af83-f2c09fbf042e"@[0]);
    assert("e5a9863b-1844-4436-a8a8-cea583888f8b"@[0] != "0fd26a9f-8f70-4f51-85e1-fe99a4ed6ffb"@[0]);
    assert("e5a9863b-1844-4436-a8a8-cea583888f8b"@[0] != "da4642f9-6acf-43fe-88b6-b120ff1308ba"@[0]);
    assert("e5a9863b-1844-4436-a8a8-cea583888f8b"@[0] != "803695f6-8319-4b8e-8c28-44856834fe3b"@[0]);
    assert("e5a9863b-1844-4436-a8a8-cea583888f8b"@[0] != "f37147a8-36f3-4c58-9577-bf0faff3aafa"@[0]);
    assert("e5a9863b-1844-4436-a8a8-cea583888f8b"@[0] != "af30b7a1-fc37-485f-94bf-f00e39805d8c"@[0]);
    assert("e5a9863b-1844-4436-a8a8-cea583888f8b"@[0] != "076d23a5-51a6-48aa-8d99-9d618cd13c93"@[0]);
    assert("e5a9863b-1844-4436-a8a8-cea583888f8b"@[0] != "c1e8bbec-8bb3-40b3-9b0e-52e3cb36015e"@[0]);
    assert("e5a9863b-1844-4436-a8a8-cea583888f8b"@[0] != "05477e79-25fd-48c2-84c7-e1621aa46517"@[0]);
    assert("e5a9863b-1844-4436-a8a8-cea583888f8b"@[1] != "ed14ac85-1252-4cc7-8efd-49cd72938f9d"@[1]);
    assert("e5a9863b-1844-4436-a8a8-cea583888f8b"@[0] != "fc54a67c-7bd3-4b33-aa7d-a77f13a7b621"@[0]);
    assert("e5a9863b-1844-4436-a8a8-cea583888f8b"@[0] != "a65ad790-180b-44cb-8643-7e1e87d15a83"@[0]);
    assert("e5a9863b-1844-4436-a8a8-cea583888f8b"@[0] != "f2220e91-6de5-41c4-b4c9-986cefee0c3f"@[0]);
    assert("e5a9863b-1844-4436-a8a8-cea583888f8b"@[0] != "a4699c4c-e6c1-4005-86f6-55888f854e6f"@[0]);
    assert("e5a9863b-1844-4436-a8a8-cea583888f8b"@[0] != "3ac715f3-8838-45de-a165-78db581ee084"@[0]);
    assert("e5a9863b-1844-4436-a8a8-cea583888f8b"@[0] != "80b2989a-5a17-4d23-b134-46cce29571fa"@[0]);
    assert("e5a9863b-1844-4436-a8a8-cea583888f8b"@[0] != "ce9e4eb6-be30-429c-9487-20ce620c2de8"@[0]);
    assert("e5a9863b-1844-4436-a8a8-cea583888f8b"@[0] != "3433b0f2-5acd-47a8-b32c-8c811c984a9f"@[0]);
    assert("e5a9863b-1844-4436-a8a8-cea583888f8b"@[1] != "e07e9ea9-daa5-4496-9908-9680e35da02b"@[1]);
    assert("e5a9863b-1844-4436-a8a8-cea583888f8b"@[0] != "2f5735f4-04e5-4c9c-a60a-780648c02611"@[0]);
    assert("e5a9863b-1844-4436-a8a8-cea583888f8b"@[0] != "908bfb12-b5e4-4342-ac68-4e61217375e2"@[0]);
    assert("e5a9863b-1844-4436-a8a8-cea583888f8b"@[0] != "c1299945-2692-42dd-b28d-03c32dea8768"@[0]);
    assert("e5a9863b-1844-4436-a8a8-cea583888f8b"@[0] != "06496fad-70f7-49bc-80c6-d62caa7a9de4"@[0]);
    assert("e5a9863b-1844-4436-a8a8-cea583888f8b"@[0] != "b05db0f8-d845-47d2-b0e5-795717038ac6"@[0]);
    assert("e5a9863b-1844-4436-a8a8-cea583888f8b"@[0] != "0c857beb-fd95-4449-a669-21fb310cacae"@[0]);
    assert("e5a9863b-1844-4436-a8a8-cea583888f8b"@[0] != "794a286c-44d9-4276-83ce-431cba7bab74"@[0]);
    assert("e5a9863b-1844-4436-a8a8-cea583888f8b"@[0] != "011b6ce7-e49d-4fba-beeb-7650bbb26557"@[0]);
    assert("e3ff2309-bc24-414a-b9f1-81954236c34b"@[0] != "d320a237-1b0a-4069-af83-f2c09fbf042e"@[0]);
    assert("e3ff2309-bc24-414a-b9f1-81954236c34b"@[0] != "0fd26a9f-8f70-4f51-85e1-fe99a4ed6ffb"@[0]);
    assert("e3ff2309-bc24-414a-b9f1-81954236c34b"@[0] != "da4642f9-6acf-43fe-88b6-b120ff1308ba"@[0]);
    assert("e3ff2309-bc24-414a-b9f1-81954236c34b"@[0] != "803695f6-8319-4b8e-8c28-44856834fe3b"@[0]);
    assert("e3ff2309-bc24-414a-b9f1-81954236c34b"@[0] != "f37147a8-36f3-4c58-9577-bf0faff3aafa"@[0]);
    assert("e3ff2309-bc24-414a-b9f1-81954236c34b"@[0] != "af30b7a1-fc37-485f-94bf-f00e39805d8c"@[0]);
    assert("e3ff2309-bc24-414a-b9f1-81954236c34b"@[0] != "076d23a5-51a6-48aa-8d99-9d618cd13c93"@[0]);
    assert("e3ff2309-bc24-414a-b9f1-81954236c34b"@[0] != "c1e8bbec-8bb3-40b3-9b0e-52e3cb36015e"@[0]);
    assert("e3ff2309-bc24-414a-b9f1-81954236c34b"@[0] != "05477e79-25fd-48c2-84c7-e1621aa46517"@[0]);
    assert("e3ff2309-bc24-414a-b9f1-81954236c34b"@[1] != "ed14ac85-1252-4cc7-8efd-49cd72938f9d"@[1]);
    assert("e3ff2309-bc24-414a-b9f1-81954236c34b"@[0] != "fc54a67c-7bd3-4b33-aa7d-a77f13a7b621"@[0]);
    assert("e3ff2309-bc24-414a-b9f1-81954236c34b"@[0] != "a65ad790-180b-44cb-8643-7e1e87d15a83"@[0]);
    assert("e3ff2309-bc24-414a-b9f1-81954236c34b"@[0] != "f2220e91-6de5-41c4-b4c9-986cefee0c3f"@[0]);
    assert("e3ff2309-bc24-414a-b9f1-81954236c34b"@[0] != "a4699c4c-e6c1-4005-86f6-55888f854e6f"@[0]);
    assert("e3ff2309-bc24-414a-b9f1-81954236c34b"@[0] != "3ac715f3-8838-45de-a165-78db581ee084"@[0]);
    assert("e3ff2309-bc24-414a-b9f1-81954236c34b"@[0] != "80b2989a-5a17-4d23-b134-46cce29571fa"@[0]);
    assert("e3ff2309-bc24-414a-b9f1-81954236c34b"@[0] != "ce9e4eb6-be30-429c-9487-20ce620c2de8"@[0]);
    assert("e3ff2309-bc24-414a-b9f1-81954236c34b"@[0] != "3433b0f2-5acd-47a8-b32c-8c811c984a9f"@[0]);
    assert("e3ff2309-bc24-414a-b9f1-81954236c34b"@[1] != "e07e9ea9-daa5-4496-9908-9680e35da02b"@[1]);
    assert("e3ff2309-bc24-414a-b9f1-81954236c34b"@[0] != "2f5735f4-04e5-4c9c-a60a-780648c02611"@[0]);
    assert("e3ff2309-bc24-414a-b9f1-81954236c34b"@[0] != "908bfb12-b5e4-4342-ac68-4e61217375e2"@[0]);
    assert("e3ff2309-bc24-414a-b9f1-81954236c34b"@[0] != "c1299945-2692-42dd-b28d-03c32dea8768"@[0]);
    assert("e3ff2309-bc24-414a-b9f1-81954236c34b"@[0] != "06496fad-70f7-49bc-80c6-d62caa7a9de4"@[0]);
    assert("e3ff2309-bc24-414a-b9f1-81954236c34b"@[0] != "b05db0f8-d845-47d2-b0e5-795717038ac6"@[0]);
    assert("e3ff2309-bc24-414a-b9f1-81954236c34b"@[0] != "0c857beb-fd95-4449-a669-21fb310cacae"@[0]);
    assert("e3ff2309-bc24-414a-b9f1-81954236c34b"@[0] != "794a286c-44d9-4276-83ce-431cba7bab74"@[0]);
    assert("e3ff2309-bc24-414a-b9f1-81954236c34b"@[0] != "011b6ce7-e49d-4fba-beeb-7650bbb26557"@[0]);
    assert("d320a237-1b0a-4069-af83-f2c09fbf042e"@[0] != "0fd26a9f-8f70-4f51-85e1-fe99a4ed6ffb"@[0]);
    assert("d320a237-1b0a-4069-af83-f2c09fbf042e"@[1] != "da4642f9-6acf-43fe-88b6-b120ff1308ba"@[1]);
    assert("d320a237-1b0a-4069-af83-f2c09fbf042e"@[0] != "803695f6-8319-4b8e-8c28-44856834fe3b"@[0]);
    assert("d320a237-1b0a-4069-af83-f2c09fbf042e"@[0] != "f37147a8-36f3-4c58-9577-bf0faff3aafa"@[0]);
    assert("d320a237-1b0a-4069-af83-f2c09fbf042e"@[0] != "af30b7a1-fc37-485f-94bf-f00e39805d8c"@[0]);
    assert("d320a237-1b0a-4069-af83-f2c09fbf042e"@[0] != "076d23a5-51a6-48aa-8d99-9d618cd13c93"@[0]);
    assert("d320a237-1b0a-4069-af83-f2c09fbf042e"@[0] != "c1e8bbec-8bb3-40b3-9b0e-52e3cb36015e"@[0]);
    assert("d320a237-1b0a-4069-af83-f2c09fbf042e"@[0] != "05477e79-25fd-48c2-84c7-e1621aa46517"@[0]);
    assert("d320a237-1b0a-4069-af83-f2c09fbf042e"@[0] != "ed14ac85-1252-4cc7-8efd-49cd72938f9d"@[0]);
    assert("d320a237-1b0a-4069-af83-f2c09fbf042e"@[0] != "fc54a67c-7bd3-4b33-aa7d-a77f13a7b621"@[0]);
    assert("d320a237-1b0a-4069-af83-f2c09fbf042e"@[0] != "a65ad790-180b-44cb-8643-7e1e87d15a83"@[0]);
    assert("d320a237-1b0a-4069-af83-f2c09fbf042e"@[0] != "f2220e91-6de5-41c4-b4c9-986cefee0c3f"@[0]);
    assert("d320a237-1b0a-4069-af83-f2c09fbf042e"@[0] != "a4699c4c-e6c1-4005-86f6-55888f854e6f"@[0]);
    assert("d320a237-1b0a-4069-af83-f2c09fbf042e"@[0] != "3ac715f3-8838-45de-a165-78db581ee084"@[0]);
    assert("d320a237-1b0a-4069-af83-f2c09fbf042e"@[0] != "80b2989a-5a17-4d23-b134-46cce29571fa"@[0]);
    assert("d320a237-1b0a-4069-af83-f2c09fbf042e"@[0] != "ce9e4eb6-be30-429c-9487-20ce620c2de8"@[0]);
    assert("d320a237-1b0a-4069-af83-f2c09fbf042e"@[0] != "3433b0f2-5acd-47a8-b32c-8c811c984a9f"@[0]);
    assert("d320a237-1b0a-4069-af83-f2c09fbf042e"@[0] != "e07e9ea9-daa5-4496-9908-9680e35da02b"@[0]);
    assert("d320a237-1b0a-4069-af83-f2c09fbf042e"@[0] != "2f5735f4-04e5-4c9c-a60a-780648c02611"@[0]);
    assert("d320a237-1b0a-4069-af83-f2c09fbf042e"@[0] != "908bfb12-b5e4-4342-ac68-4e61217375e2"@[0]);
    assert("d320a237-1b0a-4069-af83-f2c09fbf042e"@[0] != "c1299945-2692-42dd-b28d-03c32dea8768"@[0]);
    assert("d320a237-1b0a-4069-af83-f2c09fbf042e"@[0] != "06496fad-70f7-49bc-80c6-d62caa7a9de4"@[0]);
    assert("d320a237-1b0a-4069-af83-f2c09fbf042e"@[0] != "b05db0f8-d845-47d2-b0e5-795717038ac6"@[0]);
    assert("d320a237-1b0a-4069-af83-f2c09fbf042e"@[0] != "0c857beb-fd95-4449-a669-21fb310cacae"@[0]);
    assert("d320a237-1b0a-4069-af83-f2c09fbf042e"@[0] != "794a286c-44d9-4276-83ce-431cba7bab74"@[0]);
    assert("d320a237-1b0a-4069-af83-f2c09fbf042e"@[0] != "011b6ce7-e49d-4fba-beeb-7650bbb26557"@[0]);
    assert("0fd26a9f-8f70-4f51-85e1-fe99a4ed6ffb"@[0] != "da4642f9-6acf-43fe-88b6-b120ff1308ba"@[0]);
    assert("0fd26a9f-8f70-4f51-85e1-fe99a4ed6ffb"@[0] != "803695f6-8319-4b8e-8c28-44856834fe3b"@[0]);
    assert("0fd26a9f-8f70-4f51-85e1-fe99a4ed6ffb"@[0] != "f37147a8-36f3-4c58-9577-bf0faff3aafa"@[0]);
    assert("0fd26a9f-8f70-4f51-85e1-fe99a4ed6ffb"@[0] != "af30b7a1-fc37-485f-94bf-f00e39805d8c"@[0]);
    assert("0fd26a9f-8f70-4f51-85e1-fe99a4ed6ffb"@[1] != "076d23a5-51a6-48aa-8d99-9d618cd13c93"@[1]);
    assert("0fd26a9f-8f70-4f51-85e1-fe99a4ed6ffb"@[0] != "c1e8bbec-8bb3-40b3-9b0e-52e3cb36015e"@[0]);
    assert("0fd26a9f-8f70-4f51-85e1-fe99a4ed6ffb"@[1] != "05477e79-25fd-48c2-84c7-e1621aa46517"@[1]);
    assert("0fd26a9f-8f70-4f51-85e1-fe99a4ed6ffb"@[0] != "ed14ac85-1252-4cc7-8efd-49cd72938f9d"@[0]);
    assert("0fd26a9f-8f70-4f51-85e1-fe99a4ed6ffb"@[0] != "fc54a67c-7bd3-4b33-aa7d-a77f13a7b621"@[0]);
    assert("0fd26a9f-8f70-4f51-85e1-fe99a4ed6ffb"@[0] != "a65ad790-180b-44cb-8643-7e1e87d15a83"@[0]);
    assert("0fd26a9f-8f70-4f51-85e1-fe99a4ed6ffb"@[0] != "f2220e91-6de5-41c4-b4c9-986cefee0c3f"@[0]);
    assert("0fd26a9f-8f70-4f51-85e1-fe99a4ed6ffb"@[0] != "a4699c4c-e6c1-4005-86f6-55888f854e6f"@[0]);
    assert("0fd26a9f-8f70-4f51-85e1-fe99a4ed6ffb"@[0] != "3ac715f3-8838-45de-a165-78db581ee084"@[0]);
    assert("0fd26a9f-8f70-4f51-85e1-fe99a4ed6ffb"@[0] != "80b2989a-5a17-4d23-b134-46cce29571fa"@[0]);
    assert("0fd26a9f-8f70-4f51-85e1-fe99a4ed6ffb"@[0] != "ce9e4eb6-be30-429c-9487-20ce620c2de8"@[0]);
    assert("0fd26a9f-8f70-4f51-85e1-fe99a4ed6ffb"@[0] != "3433b0f2-5acd-47a8-b32c-8c811c984a9f"@[0]);
    assert("0fd26a9f-8f70-4f51-85e1-fe99a4ed6ffb"@[0] != "e07e9ea9-daa5-4496-9908-9680e35da02b"@[0]);
    assert("0fd26a9f-8f70-4f51-85e1-fe99a4ed6ffb"@[0] != "2f5735f4-04e5-4c9c-a60a-780648c02611"@[0]);
    assert("0fd26a9f-8f70-4f51-85e1-fe99a4ed6ffb"@[0] != "908bfb12-b5e4-4342-ac68-4e61217375e2"@[0]);
    assert("0fd26a9f-8f70-4f51-85e1-fe99a4ed6ffb"@[0] != "c1299945-2692-42dd-b28d-03c32dea8768"@[0]);
    assert("0fd26a9f-8f70-4f51-85e1-fe99a4ed6ffb"@[1] != "06496fad-70f7-49bc-80c6-d62caa7a9de4"@[1]);
    assert("0fd26a9f-8f70-4f51-85e1-fe99a4ed6ffb"@[0] != "b05db0f8-d845-47d2-b0e5-795717038ac6"@[0]);
    assert("0fd26a9f-8f70-4f51-85e1-fe99a4ed6ffb"@[1] != "0c857beb-fd95-4449-a669-21fb310cacae"@[1]);
    assert("0fd26a9f-8f70-4f51-85e1-fe99a4ed6ffb"@[0] != "794a286c-44d9-4276-83ce-431cba7bab74"@[0]);
    assert("0fd26a9f-8f70-4f51-85e1-fe99a4ed6ffb"@[1] != "011b6ce7-e49d-4fba-beeb-7650bbb26557"@[1]);
    assert("da4642f9-6acf-43fe-88b6-b120ff1308ba"@[0] != "803695f6-8319-4b8e-8c28-44856834fe3b"@[0]);
    assert("da4642f9-6acf-43fe-88b6-b120ff1308ba"@[0] != "f37147a8-36f3-4c58-9577-bf0faff3aafa"@[0]);
    assert("da4642f9-6acf-43fe-88b6-b120ff1308ba"@[0] != "af30b7a1-fc37-485f-94bf-f00e39805d8c"@[0]);
    assert("da4642f9-6acf-43fe-88b6-b120ff1308ba"@[0] != "076d23a5-51a6-48aa-8d99-9d618cd13c93"@[0]);
    assert("da4642f9-6acf-43fe-88b6-b120ff1308ba"@[0] != "c1e8bbec-8bb3-40b3-9b0e-52e3cb36015e"@[0]);
    assert("da4642f9-6acf-43fe-88b6-b120ff1308ba"@[0] != "05477e79-25fd-48c2-84c7-e1621aa46517"@[0]);
    assert("da4642f9-6acf-43fe-88b6-b120ff1308ba"@[0] != "ed14ac85-1252-4cc7-8efd-49cd72938f9d"@[0]);
    assert("da4642f9-6acf-43fe-88b6-b120ff1308ba"@[0] != "fc54a67c-7bd3-4b33-aa7d-a77f13a7b621"@[0]);
    assert("da4642f9-6acf-43fe-88b6-b120ff1308ba"@[0] != "a65ad790-180b-44cb-8643-7e1e87d15a83"@[0]);
    assert("da4642f9-6acf-43fe-88b6-b120ff1308ba"@[0] != "f2220e91-6de5-41c4-b4c9-986cefee0c3f"@[0]);
    assert("da4642f9-6acf-43fe-88b6-b120ff1308ba"@[0] != "a4699c4c-e6c1-4005-86f6-55888f854e6f"@[0]);
    assert("da4642f9-6acf-43fe-88b6-b120ff1308ba"@[0] != "3ac715f3-8838-45de-a165-78db581ee084"@[0]);
    assert("da4642f9-6acf-43fe-88b6-b120ff1308ba"@[0] != "80b2989a-5a17-4d23-b134-46cce29571fa"@[0]);
    assert("da4642f9-6acf-43fe-88b6-b120ff1308ba"@[0] != "ce9e4eb6-be30-429c-9487-20ce620c2de8"@[0]);
    assert("da4642f9-6acf-43fe-88b6-b120ff1308ba"@[0] != "3433b0f2-5acd-47a8-b32c-8c811c984a9f"@[0]);
    assert("da4642f9-6acf-43fe-88b6-b120ff1308ba"@[0] != "e07e9ea9-daa5-4496-9908-9680e35da02b"@[0]);
    assert("da4642f9-6acf-43fe-88b6-b120ff1308ba"@[0] != "2f5735f4-04e5-4c9c-a60a-780648c02611"@[0]);
    assert("da4642f9-6acf-43fe-88b6-b120ff1308ba"@[0] != "908bfb12-b5e4-4342-ac68-4e61217375e2"@[0]);
    assert("da4642f9-6acf-43fe-88b6-b120ff1308ba"@[0] != "c1299945-2692-42dd-b28d-03c32dea8768"@[0]);
    assert("da4642f9-6acf-43fe-88b6-b120ff1308ba"@[0] != "06496fad-70f7-49bc-80c6-d62caa7a9de4"@[0]);
    assert("da4642f9-6acf-43fe-88b6-b120ff1308ba"@[0] != "b05db0f8-d845-47d2-b0e5-795717038ac6"@[0]);
    assert("da4642f9-6acf-43fe-88b6-b120ff1308ba"@[0] != "0c857beb-fd95-4449-a669-21fb310cacae"@[0]);
    assert("da4642f9-6acf-43fe-88b6-b120ff1308ba"@[0] != "794a286c-44d9-4276-83ce-431cba7bab74"@[0]);
    assert("da4642f9-6acf-43fe-88b6-b120ff1308ba"@[0] != "011b6ce7-e49d-4fba-beeb-7650bbb26557"@[0]);
    assert("803695f6-8319-4b8e-8c28-44856834fe3b"@[0] != "f37147a8-36f3-4c58-9577-bf0faff3aafa"@[0]);
    assert("803695f6-8319-4b8e-8c28-44856834fe3b"@[0] != "af30b7a1-fc37-485f-94bf-f00e39805d8c"@[0]);
    assert("803695f6-8319-4b8e-8c28-44856834fe3b"@[0] != "076d23a5-51a6-48aa-8d99-9d618cd13c93"@[0]);
    assert("803695f6-8319-4b8e-8c28-44856834fe3b"@[0] != "c1e8bbec-8bb3-40b3-9b0e-52e3cb36015e"@[0]);
    assert("803695f6-8319-4b8e-8c28-44856834fe3b"@[0] != "05477e79-25fd-48c2-84c7-e1621aa46517"@[0]);
    assert("803695f6-8319-4b8e-8c28-44856834fe3b"@[0] != "ed14ac85-1252-4cc7-8efd-49cd72938f9d"@[0]);
    assert("803695f6-8319-4b8e-8c28-44856834fe3b"@[0] != "fc54a67c-7bd3-4b33-aa7d-a77f13a7b621"@[0]);
    assert("803695f6-8319-4b8e-8c28-44856834fe3b"@[0] != "a65ad790-180b-44cb-8643-7e1e87d15a83"@[0]);
    assert("803695f6-8319-4b8e-8c28-44856834fe3b"@[0] != "f2220e91-6de5-41c4-b4c9-986cefee0c3f"@[0]);
    assert("803695f6-8319-4b8e-8c28-44856834fe3b"@[0] != "a4699c4c-e6c1-4005-86f6-55888f854e6f"@[0]);
    assert("803695f6-8319-4b8e-8c28-44856834fe3b"@[0] != "3ac715f3-8838-45de-a165-78db581ee084"@[0]);
    assert("803695f6-8319-4b8e-8c28-44856834fe3b"@[2] != "80b2989a-5a17-4d23-b134-46cce29571fa"@[2]);
    assert("803695f6-8319-4b8e-8c28-44856834fe3b"@[0] != "ce9e4eb6-be30-429c-9487-20ce620c2de8"@[0]);
    assert("803695f6-8319-4b8e-8c28-44856834fe3b"@[0] != "3433b0f2-5acd-47a8-b32c-8c811c984a9f"@[0]);
    assert("803695f6-8319-4b8e-8c28-44856834fe3b"@[0] != "e07e9ea9-daa5-4496-9908-9680e35da02b"@[0]);
    assert("803695f6-8319-4b8e-8c28-44856834fe3b"@[0] != "2f5735f4-04e5-4c9c-a60a-780648c02611"@[0]);
    assert("803695f6-8319-4b8e-8c28-44856834fe3b"@[0] != "908bfb12-b5e4-4342-ac68-4e61217375e2"@[0]);
    assert("803695f6-8319-4b8e-8c28-44856834fe3b"@[0] != "c1299945-2692-42dd-b28d-03c32dea8768"@[0]);
    assert("803695f6-8319-4b8e-8c28-44856834fe3b"@[0] != "06496fad-70f7-49bc-80c6-d62caa7a9de4"@[0]);
    assert("803695f6-8319-4b8e-8c28-44856834fe3b"@[0] != "b05db0f8-d845-47d2-b0e5-795717038ac6"@[0]);
    assert("803695f6-8319-4b8e-8c28-44856834fe3b"@[0] != "0c857beb-fd95-4449-a669-21fb310cacae"@[0]);
    assert("803695f6-8319-4b8e-8c28-44856834fe3b"@[0] != "794a286c-44d9-4276-83ce-431cba7bab74"@[0]);
    assert("803695f6-8319-4b8e-8c28-44856834fe3b"@[0] != "011b6ce7-e49d-4fba-beeb-7650bbb26557"@[0]);
    assert("f37147a8-36f3-4c58-9577-bf0faff3aafa"@[0] != "af30b7a1-fc37-485f-94bf-f00e39805d8c"@[0]);
    assert("f37147a8-36f3-4c58-9577-bf0faff3aafa"@[0] != "076d23a5-51a6-48aa-8d99-9d618cd13c93"@[0]);
    assert("f37147a8-36f3-4c58-9577-bf0faff3aafa"@[0] != "c1e8bbec-8bb3-40b3-9b0e-52e3cb36015e"@[0]);
    assert("f37147a8-36f3-4c58-9577-bf0faff3aafa"@[0] != "05477e79-25fd-48c2-84c7-e1621aa46517"@[0]);
    assert("f37147a8-36f3-4c58-9577-bf0faff3aafa"@[0] != "ed14ac85-1252-4cc7-8efd-49cd72938f9d"@[0]);
    assert("f37147a8-36f3-4c58-9577-bf0faff3aafa"@[1] != "fc54a67c-7bd3-4b33-aa7d-a77f13a7b621"@[1]);
    assert("f37147a8-36f3-4c58-9577-bf0faff3aafa"@[0] != "a65ad790-180b-44cb-8643-7e1e87d15a83"@[0]);
    assert("f37147a8-36f3-4c58-9577-bf0faff3aafa"@[1] != "f2220e91-6de5-41c4-b4c9-986cefee0c3f"@[1]);
    assert("f37147a8-36f3-4c58-9577-bf0faff3aafa"@[0] != "a4699c4c-e6c1-4005-86f6-55888f854e6f"@[0]);
    assert("f37147a8-36f3-4c58-9577-bf0faff3aafa"@[0] != "3ac715f3-8838-45de-a165-78db581ee084"@[0]);
    assert("f37147a8-36f3-4c58-9577-bf0faff3aafa"@[0] != "80b2989a-5a17-4d23-b134-46cce29571fa"@[0]);
    assert("f37147a8-36f3-4c58-9577-bf0faff3aafa"@[0] != "ce9e4eb6-be30-429c-9487-20ce620c2de8"@[0]);
    assert("f37147a8-36f3-4c58-9577-bf0faff3aafa"@[0] != "3433b0f2-5acd-47a8-b32c-8c811c984a9f"@[0]);
    assert("f37147a8-36f3-4c58-9577-bf0faff3aafa"@[0] != "e07e9ea9-daa5-4496-9908-9680e35da02b"@[0]);
    assert("f37147a8-36f3-4c58-9577-bf0faff3aafa"@[0] != "2f5735f4-04e5-4c9c-a60a-780648c02611"@[0]);
    assert("f37147a8-36f3-4c58-9577-bf0faff3aafa"@[0] != "908bfb12-b5e4-4342-ac68-4e61217375e2"@[0]);
    assert("f37147a8-36f3-4c58-9577-bf0faff3aafa"@[0] != "c1299945-2692-42dd-b28d-03c32dea8768"@[0]);
    assert("f37147a8-36f3-4c58-9577-bf0faff3aafa"@[0] != "06496fad-70f7-49bc-80c6-d62caa7a9de4"@[0]);
    assert("f37147a8-36f3-4c58-9577-bf0faff3aafa"@[0] != "b05db0f8-d845-47d2-b0e5-795717038ac6"@[0]);
    assert("f37147a8-36f3-4c58-9577-bf0faff3aafa"@[0] != "0c857beb-fd95-4449-a669-21fb310cacae"@[0]);
    assert("f37147a8-36f3-4c58-9577-bf0faff3aafa"@[0] != "794a286c-44d9-4276-83ce-431cba7bab74"@[0]);
    assert("f37147a8-36f3-4c58-9577-bf0faff3aafa"@[0] != "011b6ce7-e49d-4fba-beeb-7650bbb26557"@[0]);
    assert("af30b7a1-fc37-485f-94bf-f00e39805d8c"@[0] != "076d23a5-51a6-48aa-8d99-9d618cd13c93"@[0]);
    assert("af30b7a1-fc37-485f-94bf-f00e39805d8c"@[0] != "c1e8bbec-8bb3-40b3-9b0e-52e3cb36015e"@[0]);
    assert("af30b7a1-fc37-485f-94bf-f00e39805d8c"@[0] != "05477e79-25fd-48c2-84c7-e1621aa46517"@[0]);
    assert("af30b7a1-fc37-485f-94bf-f00e39805d8c"@[0] != "ed14ac85-1252-4cc7-8efd-49cd72938f9d"@[0]);
    assert("af30b7a1-fc37-485f-94bf-f00e39805d8c"@[0] != "fc54a67c-7bd3-4b33-aa7d-a77f13a7b621"@[0]);
    assert("af30b7a1-fc37-485f-94bf-f00e39805d8c"@[1] != "a65ad790-180b-44cb-8643-7e1e87d15a83"@[1]);
    assert("af30b7a1-fc37-485f-94bf-f00e39805d8c"@[0] != "f2220e91-6de5-41c4-b4c9-986cefee0c3f"@[0]);
    assert("af30b7a1-fc37-485f-94bf-f00e39805d8c"@[1] != "a4699c4c-e6c1-4005-86f6-55888f854e6f"@[1]);
    assert("af30b7a1-fc37-485f-94bf-f00e39805d8c"@[0] != "3ac715f3-8838-45de-a165-78db581ee084"@[0]);
    assert("af30b7a1-fc37-485f-94bf-f00e39805d8c"@[0] != "80b2989a-5a17-4d23-b134-46cce29571fa"@[0]);
    assert("af30b7a1-fc37-485f-94bf-f00e39805d8c"@[0] != "ce9e4eb6-be30-429c-9487-20ce620c2de8"@[0]);
    assert("af30b7a1-fc37-485f-94bf-f00e39805d8c"@[0] != "3433b0f2-5acd-47a8-b32c-8c811c984a9f"@[0]);
    assert("af30b7a1-fc37-485f-94bf-f00e39805d8c"@[0] != "e07e9ea9-daa5-4496-9908-9680e35da02b"@[0]);
    assert("af30b7a1-fc37-485f-94bf-f00e39805d8c"@[0] != "2f5735f4-04e5-4c9c-a60a-780648c02611"@[0]);
    assert("af30b7a1-fc37-485f-94bf-f00e39805d8c"@[0] != "908bfb12-b5e4-4342-ac68-4e61217375e2"@[0]);
    assert("af30b7a1-fc37-485f-94bf-f00e39805d8c"@[0] != "c1299945-2692-42dd-b28d-03c32dea8768"@[0]);
    assert("af30b7a1-fc37-485f-94bf-f00e39805d8c"@[0] != "06496fad-70f7-49bc-80c6-d62caa7a9de4"@[0]);
    assert("af30b7a1-fc37-485f-94bf-f00e39805d8c"@[0] != "b05db0f8-d845-47d2-b0e5-795717038ac6"@[0]);
    assert("af30b7a1-fc37-485f-94bf-f00e39805d8c"@[0] != "0c857beb-fd95-4449-a669-21fb310cacae"@[0]);
    assert("af30b7a1-fc37-485f-94bf-f00e39805d8c"@[0] != "794a286c-44d9-4276-83ce-431cba7bab74"@[0]);
    assert("af30b7a1-fc37-485f-94bf-f00e39805d8c"@[0] != "011b6ce7-e49d-4fba-beeb-7650bbb26557"@[0]);
    assert("076d23a5-51a6-48aa-8d99-9d618cd13c93"@[0] != "c1e8bbec-8bb3-40b3-9b0e-52e3cb36015e"@[0]);
    assert("076d23a5-51a6-48aa-8d99-9d618cd13c93"@[1] != "05477e79-25fd-48c2-84c7-e1621aa46517"@[1]);
    assert("076d23a5-51a6-48aa-8d99-9d618cd13c93"@[0] != "ed14ac85-1252-4cc7-8efd-49cd72938f9d"@[0]);
    assert("076d23a5-51a6-48aa-8d99-9d618cd13c93"@[0] != "fc54a67c-7bd3-4b33-aa7d-a77f13a7b621"@[0]);
    assert("076d23a5-51a6-48aa-8d99-9d618cd13c93"@[0] != "a65ad790-180b-44cb-8643-7e1e87d15a83"@[0]);
    assert("076d23a5-51a6-48aa-8d99-9d618cd13c93"@[0] != "f2220e91-6de5-41c4-b4c9-986cefee0c3f"@[0]);
    assert("076d23a5-51a6-48aa-8d99-9d618cd13c93"@[0] != "a4699c4c-e6c1-4005-86f6-55888f854e6f"@[0]);
    assert("076d23a5-51a6-48aa-8d99-9d618cd13c93"@[0] != "3ac715f3-8838-45de-a165-78db581ee084"@[0]);
    assert("076d23a5-51a6-48aa-8d99-9d618cd13c93"@[0] != "80b2989a-5a17-4d23-b134-46cce29571fa"@[0]);
    assert("076d23a5-51a6-48aa-8d99-9d618cd13c93"@[0] != "ce9e4eb6-be30-429c-9487-20ce620c2de8"@[0]);
    assert("076d23a5-51a6-48aa-8d99-9d618cd13c93"@[0] != "3433b0f2-5acd-47a8-b32c-8c811c984a9f"@[0]);
    assert("076d23a5-51a6-48aa-8d99-9d618cd13c93"@[0] != "e07e9ea9-daa5-4496-9908-9680e35da02b"@[0]);
    assert("076d23a5-51a6-48aa-8d99-9d618cd13c93"@[0] != "2f5735f4-04e5-4c9c-a60a-780648c02611"@[0]);
    assert("076d23a5-51a6-48aa-8d99-9d618cd13c93"@[0] != "908bfb12-b5e4-4342-ac68-4e61217375e2"@[0]);
    assert("076d23a5-51a6-48aa-8d99-9d618cd13c93"@[0] != "c1299945-2692-42dd-b28d-03c32dea8768"@[0]);
    assert("076d23a5-51a6-48aa-8d99-9d618cd13c93"@[1] != "06496fad-70f7-49bc-80c6-d62caa7a9de4"@[1]);
    assert("076d23a5-51a6-48aa-8d99-9d618cd13c93"@[0] != "b05db0f8-d845-47d2-b0e5-795717038ac6"@[0]);
    assert("076d23a5-51a6-48aa-8d99-9d618cd13c93"@[1] != "0c857beb-fd95-4449-a669-21fb310cacae"@[1]);
    assert("076d23a5-51a6-48aa-8d99-9d618cd13c93"@[0] != "794a286c-44d9-4276-83ce-431cba7bab74"@[0]);
    assert("076d23a5-51a6-48aa-8d99-9d618cd13c93"@[1] != "011b6ce7-e49d-4fba-beeb-7650bbb26557"@[1]);
    assert("c1e8bbec-8bb3-40b3-9b0e-52e3cb36015e"@[0] != "05477e79-25fd-48c2-84c7-e1621aa46517"@[0]);
    assert("c1e8bbec-8bb3-40b3-9b0e-52e3cb36015e"@[0] != "ed14ac85-1252-4cc7-8efd-49cd72938f9d"@[0]);
    assert("c1e8bbec-8bb3-40b3-9b0e-52e3cb36015e"@[0] != "fc54a67c-7bd3-4b33-aa7d-a77f13a7b621"@[0]);
    assert("c1e8bbec-8bb3-40b3-9b0e-52e3cb36015e"@[0] != "a65ad790-180b-44cb-8643-7e1e87d15a83"@[0]);
    assert("c1e8bbec-8bb3-40b3-9b0e-52e3cb36015e"@[0] != "f2220e91-6de5-41c4-b4c9-986cefee0c3f"@[0]);
    assert("c1e8bbec-8bb3-40b3-9b0e-52e3cb36015e"@[0] != "a4699c4c-e6c1-4005-86f6-55888f854e6f"@[0]);
    assert("c1e8bbec-8bb3-40b3-9b0e-52e3cb36015e"@[0] != "3ac715f3-8838-45de-a165-78db581ee084"@[0]);
    assert("c1e8bbec-8bb3-40b3-9b0e-52e3cb36015e"@[0] != "80b2989a-5a17-4d23-b134-46cce29571fa"@[0]);
    assert("c1e8bbec-8bb3-40b3-9b0e-52e3cb36015e"@[1] != "ce9e4eb6-be30-429c-9487-20ce620c2de8"@[1]);
    assert("c1e8bbec-8bb3-40b3-9b0e-52e3cb36015e"@[0] != "3433b0f2-5acd-47a8-b32c-8c811c984a9f"@[0]);
    assert("c1e8bbec-8bb3-40b3-9b0e-52e3cb36015e"@[0] != "e07e9ea9-daa5-4496-9908-9680e35da02b"@[0]);
    assert("c1e8bbec-8bb3-40b3-9b0e-52e3cb36015e"@[0] != "2f5735f4-04e5-4c9c-a60a-780648c02611"@[0]);
    assert("c1e8bbec-8bb3-40b3-9b0e-52e3cb36015e"@[0] != "908bfb12-b5e4-4342-ac68-4e61217375e2"@[0]);
    assert("c1e8bbec-8bb3-40b3-9b0e-52e3cb36015e"@[2] != "c1299945-2692-42dd-b28d-03c32dea8768"@[2]);
    assert("c1e8bbec-8bb3-40b3-9b0e-52e3cb36015e"@[0] != "06496fad-70f7-49bc-80c6-d62caa7a9de4"@[0]);
    assert("c1e8bbec-8bb3-40b3-9b0e-52e3cb36015e"@[0] != "b05db0f8-d845-47d2-b0e5-795717038ac6"@[0]);
    assert("c1e8bbec-8bb3-40b3-9b0e-52e3cb36015e"@[0] != "0c857beb-fd95-4449-a669-21fb310cacae"@[0]);
    assert("c1e8bbec-8bb3-40b3-9b0e-52e3cb36015e"@[0] != "794a286c-44d9-4276-83ce-431cba7bab74"@[0]);
    assert("c1e8bbec-8bb3-40b3-9b0e-52e3cb36015e"@[0] != "011b6ce7-e49d-4fba-beeb-7650bbb26557"@[0]);
    assert("05477e79-25fd-48c2-84c7-e1621aa46517"@[0] != "ed14ac85-1252-4cc7-8efd-49cd72938f9d"@[0]);
    assert("05477e79-25fd-48c2-84c7-e1621aa46517"@[0] != "fc54a67c-7bd3-4b33-aa7d-a77f13a7b621"@[0]);
    assert("05477e79-25fd-48c2-84c7-e1621aa46517"@[0] != "a65ad790-180b-44cb-8643-7e1e87d15a83"@[0]);
    assert("05477e79-25fd-48c2-84c7-e1621aa46517"@[0] != "f2220e91-6de5-41c4-b4c9-986cefee0c3f"@[0]);
    assert("05477e79-25fd-48c2-84c7-e1621aa46517"@[0] != "a4699c4c-e6c1-4005-86f6-55888f854e6f"@[0]);
    assert("05477e79-25fd-48c2-84c7-e1621aa46517"@[0] != "3ac715f3-8838-45de-a165-78db581ee084"@[0]);
    assert("05477e79-25fd-48c2-84c7-e1621aa46517"@[0] != "80b2989a-5a17-4d23-b134-46cce29571fa"@[0]);
    assert("05477e79-25fd-48c2-84c7-e1621aa46517"@[0] != "ce9e4eb6-be30-429c-9487-20ce620c2de8"@[0]);
    assert("05477e79-25fd-48c2-84c7-e1621aa46517"@[0] != "3433b0f2-5acd-47a8-b32c-8c811c984a9f"@[0]);
    assert("05477e79-25fd-48c2-84c7-e1621aa46517"@[0] != "e07e9ea9-daa5-4496-9908-9680e35da02b"@[0]);
    assert("05477e79-25fd-48c2-84c7-e1621aa46517"@[0] != "2f5735f4-04e5-4c9c-a60a-780648c02611"@[0]);
    assert("05477e79-25fd-48c2-84c7-e1621aa46517"@[0] != "908bfb12-b5e4-4342-ac68-4e61217375e2"@[0]);
    assert("05477e79-25fd-48c2-84c7-e1621aa46517"@[0] != "c1299945-2692-42dd-b28d-03c32dea8768"@[0]);
    assert("05477e79-25fd-48c2-84c7-e1621aa46517"@[1] != "06496fad-70f7-49bc-80c6-d62caa7a9de4"@[1]);
    assert("05477e79-25fd-48c2-84c7-e1621aa46517"@[0] != "b05db0f8-d845-47d2-b0e5-795717038ac6"@[0]);
    assert("05477e79-25fd-48c2-84c7-e1621aa46517"@[1] != "0c857beb-fd95-4449-a669-21fb310cacae"@[1]);
    assert("05477e79-25fd-48c2-84c7-e1621aa46517"@[0] != "794a286c-44d9-4276-83ce-431cba7bab74"@[0]);
    assert("05477e79-25fd-48c2-84c7-e1621aa46517"@[1] != "011b6ce7-e49d-4fba-beeb-7650bbb26557"@[1]);
    assert("ed14ac85-1252-4cc7-8efd-49cd72938f9d"@[0] != "fc54a67c-7bd3-4b33-aa7d-a77f13a7b621"@[0]);
    assert("ed14ac85-1252-4cc7-8efd-49cd72938f9d"@[0] != "a65ad790-180b-44cb-8643-7e1e87d15a83"@[0]);
    assert("ed14ac85-1252-4cc7-8efd-49cd72938f9d"@[0] != "f2220e91-6de5-41c4-b4c9-986cefee0c3f"@[0]);
    assert("ed14ac85-1252-4cc7-8efd-49cd72938f9d"@[0] != "a4699c4c-e6c1-4005-86f6-55888f854e6f"@[0]);
    assert("ed14ac85-1252-4cc7-8efd-49cd72938f9d"@[0] != "3ac715f3-8838-45de-a165-78db581ee084"@[0]);
    assert("ed14ac85-1252-4cc7-8efd-49cd72938f9d"@[0] != "80b2989a-5a17-4d23-b134-46cce29571fa"@[0]);
    assert("ed14ac85-1252-4cc7-8efd-49cd72938f9d"@[0] != "ce9e4eb6-be30-429c-9487-20ce620c2de8"@[0]);
    assert("ed14ac85-1252-4cc7-8efd-49cd72938f9d"@[0] != "3433b0f2-5acd-47a8-b32c-8c811c984a9f"@[0]);
    assert("ed14ac85-1252-4cc7-8efd-49cd72938f9d"@[1] != "e07e9ea9-daa5-4496-9908-9680e35da02b"@[1]);
    assert("ed14ac85-1252-4cc7-8efd-49cd72938f9d"@[0] != "2f5735f4-04e5-4c9c-a60a-780648c02611"@[0]);
    assert("ed14ac85-1252-4cc7-8efd-49cd72938f9d"@[0] != "908bfb12-b5e4-4342-ac68-4e61217375e2"@[0]);
    assert("ed14ac85-1252-4cc7-8efd-49cd72938f9d"@[0] != "c1299945-2692-42dd-b28d-03c32dea8768"@[0]);
    assert("ed14ac85-1252-4cc7-8efd-49cd72938f9d"@[0] != "06496fad-70f7-49bc-80c6-d62caa7a9de4"@[0]);
    assert("ed14ac85-1252-4cc7-8efd-49cd72938f9d"@[0] != "b05db0f8-d845-47d2-b0e5-795717038ac6"@[0]);
    assert("ed14ac85-1252-4cc7-8efd-49cd72938f9d"@[0] != "0c857beb-fd95-4449-a669-21fb310cacae"@[0]);
    assert("ed14ac85-1252-4cc7-8efd-49cd72938f9d"@[0] != "794a286c-44d9-4276-83ce-431cba7bab74"@[0]);
    assert("ed14ac85-1252-4cc7-8efd-49cd72938f9d"@[0] != "011b6ce7-e49d-4fba-beeb-7650bbb26557"@[0]);
    assert("fc54a67c-7bd3-4b33-aa7d-a77f13a7b621"@[0] != "a65ad790-180b-44cb-8643-7e1e87d15a83"@[0]);
    assert("fc54a67c-7bd3-4b33-aa7d-a77f13a7b621"@[1] != "f2220e91-6de5-41c4-b4c9-986cefee0c3f"@[1]);
    assert("fc54a67c-7bd3-4b33-aa7d-a77f13a7b621"@[0] != "a4699c4c-e6c1-4005-86f6-55888f854e6f"@[0]);
    assert("fc54a67c-7bd3-4b33-aa7d-a77f13a7b621"@[0] != "3ac715f3-8838-45de-a165-78db581ee084"@[0]);
    assert("fc54a67c-7bd3-4b33-aa7d-a77f13a7b621"@[0] != "80b2989a-5a17-4d23-b134-46cce29571fa"@[0]);
    assert("fc54a67c-7bd3-4b33-aa7d-a77f13a7b621"@[0] != "ce9e4eb6-be30-429c-9487-20ce620c2de8"@[0]);
    assert("fc54a67c-7bd3-4b33-aa7d-a77f13a7b621"@[0] != "3433b0f2-5acd-47a8-b32c-8c811c984a9f"@[0]);
    assert("fc54a67c-7bd3-4b33-aa7d-a77f13a7b621"@[0] != "e07e9ea9-daa5-4496-9908-9680e35da02b"@[0]);
    assert("fc54a67c-7bd3-4b33-aa7d-a77f13a7b621"@[0] != "2f5735f4-04e5-4c9c-a60a-780648c02611"@[0]);
    assert("fc54a67c-7bd3-4b33-aa7d-a77f13a7b621"@[0] != "908bfb12-b5e4-4342-ac68-4e61217375e2"@[0]);
    assert("fc54a67c-7bd3-4b33-aa7d-a77f13a7b621"@[0] != "c1299945-2692-42dd-b28d-03c32dea8768"@[0]);
    assert("fc54a67c-7bd3-4b33-aa7d-a77f13a7b621"@[0] != "06496fad-70f7-49bc-80c6-d62caa7a9de4"@[0]);
    assert("fc54a67c-7bd3-4b33-aa7d-a77f13a7b621"@[0] != "b05db0f8-d845-47d2-b0e5-795717038ac6"@[0]);
    assert("fc54a67c-7bd3-4b33-aa7d-a77f13a7b621"@[0] != "0c857beb-fd95-4449-a669-21fb310cacae"@[0]);
    assert("fc54a67c-7bd3-4b33-aa7d-a77f13a7b621"@[0] != "794a286c-44d9-4276-83ce-431cba7bab74"@[0]);
    assert("fc54a67c-7bd3-4b33-aa7d-a77f13a7b621"@[0] != "011b6ce7-e49d-4fba-beeb-7650bbb26557"@[0]);
    assert("a65ad790-180b-44cb-8643-7e1e87d15a83"@[0] != "f2220e91-6de5-41c4-b4c9-986cefee0c3f"@[0]);
    assert("a65ad790-180b-44cb-8643-7e1e87d15a83"@[1] != "a4699c4c-e6c1-4005-86f6-55888f854e6f"@[1]);
    assert("a65ad790-180b-44cb-8643-7e1e87d15a83"@[0] != "3ac715f3-8838-45de-a165-78db581ee084"@[0]);
    assert("a65ad790-180b-44cb-8643-7e1e87d15a83"@[0] != "80b2989a-5a17-4d23-b134-46cce29571fa"@[0]);
    assert("a65ad790-180b-44cb-8643-7e1e87d15a83"@[0] != "ce9e4eb6-be30-429c-9487-20ce620c2de8"@[0]);
    assert("a65ad790-180b-44cb-8643-7e1e87d15a83"@[0] != "3433b0f2-5acd-47a8-b32c-8c811c984a9f"@[0]);
    assert("a65ad790-180b-44cb-8643-7e1e87d15a83"@[0] != "e07e9ea9-daa5-4496-9908-9680e35da02b"@[0]);
    assert("a65ad790-180b-44cb-8643-7e1e87d15a83"@[0] != "2f5735f4-04e5-4c9c-a60a-780648c02611"@[0]);
    assert("a65ad790-180b-44cb-8643-7e1e87d15a83"@[0] != "908bfb12-b5e4-4342-ac68-4e61217375e2"@[0]);
    assert("a65ad790-180b-44cb-8643-7e1e87d15a83"@[0] != "c1299945-2692-42dd-b28d-03c32dea8768"@[0]);
    assert("a65ad790-180b-44cb-8643-7e1e87d15a83"@[0] != "06496fad-70f7-49bc-80c6-d62caa7a9de4"@[0]);
    assert("a65ad790-180b-44cb-8643-7e1e87d15a83"@[0] != "b05db0f8-d845-47d2-b0e5-795717038ac6"@[0]);
    assert("a65ad790-180b-44cb-8643-7e1e87d15a83"@[0] != "0c857beb-fd95-4449-a669-21fb310cacae"@[0]);
    assert("a65ad790-180b-44cb-8643-7e1e87d15a83"@[0] != "794a286c-44d9-4276-83ce-431cba7bab74"@[0]);
    assert("a65ad790-180b-44cb-8643-7e1e87d15a83"@[0] != "011b6ce7-e49d-4fba-beeb-7650bbb26557"@[0]);
    assert("f2220e91-6de5-41c4-b4c9-986cefee0c3f"@[0] != "a4699c4c-e6c1-4005-86f6-55888f854e6f"@[0]);
    assert("f2220e91-6de5-41c4-b4c9-986cefee0c3f"@[0] != "3ac715f3-8838-45de-a165-78db581ee084"@[0]);
    assert("f2220e91-6de5-41c4-b4c9-986cefee0c3f"@[0] != "80b2989a-5a17-4d23-b134-46cce29571fa"@[0]);
    assert("f2220e91-6de5-41c4-b4c9-986cefee0c3f"@[0] != "ce9e4eb6-be30-429c-9487-20ce620c2de8"@[0]);
    assert("f2220e91-6de5-41c4-b4c9-986cefee0c3f"@[0] != "3433b0f2-5acd-47a8-b32c-8c811c984a9f"@[0]);
    assert("f2220e91-6de5-41c4-b4c9-986cefee0c3f"@[0] != "e07e9ea9-daa5-4496-9908-9680e35da02b"@[0]);
    assert("f2220e91-6de5-41c4-b4c9-986cefee0c3f"@[0] != "2f5735f4-04e5-4c9c-a60a-780648c02611"@[0]);
    assert("f2220e91-6de5-41c4-b4c9-986cefee0c3f"@[0] != "908bfb12-b5e4-4342-ac68-4e61217375e2"@[0]);
    assert("f2220e91-6de5-41c4-b4c9-986cefee0c3f"@[0] != "c1299945-2692-42dd-b28d-03c32dea8768"@[0]);
    assert("f2220e91-6de5-41c4-b4c9-986cefee0c3f"@[0] != "06496fad-70f7-49bc-80c6-d62caa7a9de4"@[0]);
    assert("f2220e91-6de5-41c4-b4c9-986cefee0c3f"@[0] != "b05db0f8-d845-47d2-b0e5-795717038ac6"@[0]);
    assert("f2220e91-6de5-41c4-b4c9-986cefee0c3f"@[0] != "0c857beb-fd95-4449-a669-21fb310cacae"@[0]);
    assert("f2220e91-6de5-41c4-b4c9-986cefee0c3f"@[0] != "794a286c-44d9-4276-83ce-431cba7bab74"@[0]);
    assert("f2220e91-6de5-41c4-b4c9-986cefee0c3f"@[0] != "011b6ce7-e49d-4fba-beeb-7650bbb26557"@[0]);
    assert("a4699c4c-e6c1-4005-86f6-55888f854e6f"@[0] != "3ac715f3-8838-45de-a165-78db581ee084"@[0]);
    assert("a4699c4c-e6c1-4005-86f6-55888f854e6f"@[0] != "80b2989a-5a17-4d23-b134-46cce29571fa"@[0]);
    assert("a4699c4c-e6c1-4005-86f6-55888f854e6f"@[0] != "ce9e4eb6-be30-429c-9487-20ce620c2de8"@[0]);
    assert("a4699c4c-e6c1-4005-86f6-55888f854e6f"@[0] != "3433b0f2-5acd-47a8-b32c-8c811c984a9f"@[0]);
    assert("a4699c4c-e6c1-4005-86f6-55888f854e6f"@[0] != "e07e9ea9-daa5-4496-9908-9680e35da02b"@[0]);
    assert("a4699c4c-e6c1-4005-86f6-55888f854e6f"@[0] != "2f5735f4-04e5-4c9c-a60a-780648c02611"@[0]);
    assert("a4699c4c-e6c1-4005-86f6-55888f854e6f"@[0] != "908bfb12-b5e4-4342-ac68-4e61217375e2"@[0]);
    assert("a4699c4c-e6c1-4005-86f6-55888f854e6f"@[0] != "c1299945-2692-42dd-b28d-03c32dea8768"@[0]);
    assert("a4699c4c-e6c1-4005-86f6-55888f854e6f"@[0] != "06496fad-70f7-49bc-80c6-d62caa7a9de4"@[0]);
    assert("a4699c4c-e6c1-4005-86f6-55888f854e6f"@[0] != "b05db0f8-d845-47d2-b0e5-795717038ac6"@[0]);
    assert("a4699c4c-e6c1-4005-86f6-55888f854e6f"@[0] != "0c857beb-fd95-4449-a669-21fb310cacae"@[0]);
    assert("a4699c4c-e6c1-4005-86f6-55888f854e6f"@[0] != "794a286c-44d9-4276-83ce-431cba7bab74"@[0]);
    assert("a4699c4c-e6c1-4005-86f6-55888f854e6f"@[0] != "011b6ce7-e49d-4fba-beeb-7650bbb26557"@[0]);
    assert("3ac715f3-8838-45de-a165-78db581ee084"@[0] != "80b2989a-5a17-4d23-b134-46cce29571fa"@[0]);
    assert("3ac715f3-8838-45de-a165-78db581ee084"@[0] != "ce9e4eb6-be30-429c-9487-20ce620c2de8"@[0]);
    assert("3ac715f3-8838-45de-a165-78db581ee084"@[1] != "3433b0f2-5acd-47a8-b32c-8c811c984a9f"@[1]);
    assert("3ac715f3-8838-45de-a165-78db581ee084"@[0] != "e07e9ea9-daa5-4496-9908-9680e35da02b"@[0]);
    assert("3ac715f3-8838-45de-a165-78db581ee084"@[0] != "2f5735f4-04e5-4c9c-a60a-780648c02611"@[0]);
    assert("3ac715f3-8838-45de-a165-78db581ee084"@[0] != "908bfb12-b5e4-4342-ac68-4e61217375e2"@[0]);
    assert("3ac715f3-8838-45de-a165-78db581ee084"@[0] != "c1299945-2692-42dd-b28d-03c32dea8768"@[0]);
    assert("3ac715f3-8838-45de-a165-78db581ee084"@[0] != "06496fad-70f7-49bc-80c6-d62caa7a9de4"@[0]);
    assert("3ac715f3-8838-45de-a165-78db581ee084"@[0] != "b05db0f8-d845-47d2-b0e5-795717038ac6"@[0]);
    assert("3ac715f3-8838-45de-a165-78db581ee084"@[0] != "0c857beb-fd95-4449-a669-21fb310cacae"@[0]);
    assert("3ac715f3-8838-45de-a165-78db581ee084"@[0] != "794a286c-44d9-4276-83ce-431cba7bab74"@[0]);
    assert("3ac715f3-8838-45de-a165-78db581ee084"@[0] != "011b6ce7-e49d-4fba-beeb-7650bbb26557"@[0]);
    assert("80b2989a-5a17-4d23-b134-46cce29571fa"@[0] != "ce9e4eb6-be30-429c-9487-20ce620c2de8"@[0]);
    assert("80b2989a-5a17-4d23-b134-46cce29571fa"@[0] != "3433b0f2-5acd-47a8-b32c-8c811c984a9f"@[0]);
    assert("80b2989a-5a17-4d23-b134-46cce29571fa"@[0] != "e07e9ea9-daa5-4496-9908-9680e35da02b"@[0]);
    assert("80b2989a-5a17-4d23-b134-46cce29571fa"@[0] != "2f5735f4-04e5-4c9c-a60a-780648c02611"@[0]);
    assert("80b2989a-5a17-4d23-b134-46cce29571fa"@[0] != "908bfb12-b5e4-4342-ac68-4e61217375e2"@[0]);
    assert("80b2989a-5a17-4d23-b134-46cce29571fa"@[0] != "c1299945-2692-42dd-b28d-03c32dea8768"@[0]);
    assert("80b2989a-5a17-4d23-b134-46cce29571fa"@[0] != "06496fad-70f7-49bc-80c6-d62caa7a9de4"@[0]);
    assert("80b2989a-5a17-4d23-b134-46cce29571fa"@[0] != "b05db0f8-d845-47d2-b0e5-795717038ac6"@[0]);
    assert("80b2989a-5a17-4d23-b134-46cce29571fa"@[0] != "0c857beb-fd95-4449-a669-21fb310cacae"@[0]);
    assert("80b2989a-5a17-4d23-b134-46cce29571fa"@[0] != "794a286c-44d9-4276-83ce-431cba7bab74"@[0]);
    assert("80b2989a-5a17-4d23-b134-46cce29571fa"@[0] != "011b6ce7-e49d-4fba-beeb-7650bbb26557"@[0]);
    assert("ce9e4eb6-be30-429c-9487-20ce620c2de8"@[0] != "3433b0f2-5acd-47a8-b32c-8c811c984a9f"@[0]);
    assert("ce9e4eb6-be30-429c-9487-20ce620c2de8"@[0] != "e07e9ea9-daa5-4496-9908-9680e35da02b"@[0]);
    assert("ce9e4eb6-be30-429c-9487-20ce620c2de8"@[0] != "2f5735f4-04e5-4c9c-a60a-780648c02611"@[0]);
    assert("ce9e4eb6-be30-429c-9487-20ce620c2de8"@[0] != "908bfb12-b5e4-4342-ac68-4e61217375e2"@[0]);
    assert("ce9e4eb6-be30-429c-9487-20ce620c2de8"@[1] != "c1299945-2692-42dd-b28d-03c32dea8768"@[1]);
    assert("ce9e4eb6-be30-429c-9487-20ce620c2de8"@[0] != "06496fad-70f7-49bc-80c6-d62caa7a9de4"@[0]);
    assert("ce9e4eb6-be30-429c-9487-20ce620c2de8"@[0] != "b05db0f8-d845-47d2-b0e5-795717038ac6"@[0]);
    assert("ce9e4eb6-be30-429c-9487-20ce620c2de8"@[0] != "0c857beb-fd95-4449-a669-21fb310cacae"@[0]);
    assert("ce9e4eb6-be30-429c-9487-20ce620c2de8"@[0] != "794a286c-44d9-4276-83ce-431cba7bab74"@[0]);
    assert("ce9e4eb6-be30-429c-9487-20ce620c2de8"@[0] != "011b6ce7-e49d-4fba-beeb-7650bbb26557"@[0]);
    assert("3433b0f2-5acd-47a8-b32c-8c811c984a9f"@[0] != "e07e9ea9-daa5-4496-9908-9680e35da02b"@[0]);
    assert("3433b0f2-5acd-47a8-b32c-8c811c984a9f"@[0] != "2f5735f4-04e5-4c9c-a60a-780648c02611"@[0]);
    assert("3433b0f2-5acd-47a8-b32c-8c811c984a9f"@[0] != "908bfb12-b5e4-4342-ac68-4e61217375e2"@[0]);
    assert("3433b0f2-5acd-47a8-b32c-8c811c984a9f"@[0] != "c1299945-2692-42dd-b28d-03c32dea8768"@[0]);
    assert("3433b0f2-5acd-47a8-b32c-8c811c984a9f"@[0] != "06496fad-70f7-49bc-80c6-d62caa7a9de4"@[0]);
    assert("3433b0f2-5acd-47a8-b32c-8c811c984a9f"@[0] != "b05db0f8-d845-47d2-b0e5-795717038ac6"@[0]);
    assert("3433b0f2-5acd-47a8-b32c-8c811c984a9f"@[0] != "0c857beb-fd95-4449-a669-21fb310cacae"@[0]);
    assert("3433b0f2-5acd-47a8-b32c-8c811c984a9f"@[0] != "794a286c-44d9-4276-83ce-431cba7bab74"@[0]);
    assert("3433b0f2-5acd-47a8-b32c-8c811c984a9f"@[0] != "011b6ce7-e49d-4fba-beeb-7650bbb26557"@[0]);
    assert("e07e9ea9-daa5-4496-9908-9680e35da02b"@[0] != "2f5735f4-04e5-4c9c-a60a-780648c02611"@[0]);
    assert("e07e9ea9-daa5-4496-9908-9680e35da02b"@[0] != "908bfb12-b5e4-4342-ac68-4e61217375e2"@[0]);
    assert("e07e9ea9-daa5-4496-9908-9680e35da02b"@[0] != "c1299945-2692-42dd-b28d-03c32dea8768"@[0]);
    assert("e07e9ea9-daa5-4496-9908-9680e35da02b"@[0] != "06496fad-70f7-49bc-80c6-d62caa7a9de4"@[0]);
    assert("e07e9ea9-daa5-4496-9908-9680e35da02b"@[0] != "b05db0f8-d845-47d2-b0e5-795717038ac6"@[0]);
    assert("e07e9ea9-daa5-4496-9908-9680e35da02b"@[0] != "0c857beb-fd95-4449-a669-21fb310cacae"@[0]);
    assert("e07e9ea9-daa5-4496-9908-9680e35da02b"@[0] != "794a286c-44d9-4276-83ce-431cba7bab74"@[0]);
    assert("e07e9ea9-daa5-4496-9908-9680e35da02b"@[0] != "011b6ce7-e49d-4fba-beeb-7650bbb26557"@[0]);
    assert("2f5735f4-04e5-4c9c-a60a-780648c02611"@[0] != "908bfb12-b5e4-4342-ac68-4e61217375e2"@[0]);
    assert("2f5735f4-04e5-4c9c-a60a-780648c02611"@[0] != "c1299945-2692-42dd-b28d-03c32dea8768"@[0]);
    assert("2f5735f4-04e5-4c9c-a60a-780648c02611"@[0] != "06496fad-70f7-49bc-80c6-d62caa7a9de4"@[0]);
    assert("2f5735f4-04e5-4c9c-a60a-780648c02611"@[0] != "b05db0f8-d845-47d2-b0e5-795717038ac6"@[0]);
    assert("2f5735f4-04e5-4c9c-a60a-780648c02611"@[0] != "0c857beb-fd95-4449-a669-21fb310cacae"@[0]);
    assert("2f5735f4-04e5-4c9c-a60a-780648c02611"@[0] != "794a286c-44d9-4276-83ce-431cba7bab74"@[0]);
    assert("2f5735f4-04e5-4c9c-a60a-780648c02611"@[0] != "011b6ce7-e49d-4fba-beeb-7650bbb26557"@[0]);
    assert("908bfb12-b5e4-4342-ac68-4e61217375e2"@[0] != "c1299945-2692-42dd-b28d-03c32dea8768"@[0]);
    assert("908bfb12-b5e4-4342-ac68-4e61217375e2"@[0] != "06496fad-70f7-49bc-80c6-d62caa7a9de4"@[0]);
    assert("908bfb12-b5e4-4342-ac68-4e61217375e2"@[0] != "b05db0f8-d845-47d2-b0e5-795717038ac6"@[0]);
    assert("908bfb12-b5e4-4342-ac68-4e61217375e2"@[0] != "0c857beb-fd95-4449-a669-21fb310cacae"@[0]);
    assert("908bfb12-b5e4-4342-ac68-4e61217375e2"@[0] != "794a286c-44d9-4276-83ce-431cba7bab74"@[0]);
    assert("908bfb12-b5e4-4342-ac68-4e61217375e2"@[0] != "011b6ce7-e49d-4fba-beeb-7650bbb26557"@[0]);
    assert("c1299945-2692-42dd-b28d-03c32dea8768"@[0] != "06496fad-70f7-49bc-80c6-d62caa7a9de4"@[0]);
    assert("c1299945-2692-42dd-b28d-03c32dea8768"@[0] != "b05db0f8-d845-47d2-b0e5-795717038ac6"@[0]);
    assert("c1299945-2692-42dd-b28d-03c32dea8768"@[0] != "0c857beb-fd95-4449-a669-21fb310cacae"@[0]);
    assert("c1299945-2692-42dd-b28d-03c32dea8768"@[0] != "794a286c-44d9-4276-83ce-431cba7bab74"@[0]);
    assert("c1299945-2692-42dd-b28d-03c32dea8768"@[0] != "011b6ce7-e49d-4fba-beeb-7650bbb26557"@[0]);
    assert("06496fad-70f7-49bc-80c6-d62caa7a9de4"@[0] != "b05db0f8-d845-47d2-b0e5-795717038ac6"@[0]);
    assert("06496fad-70f7-49bc-80c6-d62caa7a9de4"@[1] != "0c857beb-fd95-4449-a669-21fb310cacae"@[1]);
    assert("06496fad-70f7-49bc-80c6-d62caa7a9de4"@[0] != "794a286c-44d9-4276-83ce-431cba7bab74"@[0]);
    assert("06496fad-70f7-49bc-80c6-d62caa7a9de4"@[1] != "011b6ce7-e49d-4fba-beeb-7650bbb26557"@[1]);
    assert("b05db0f8-d845-47d2-b0e5-795717038ac6"@[0] != "0c857beb-fd95-4449-a669-21fb310cacae"@[0]);
    assert("b05db0f8-d845-47d2-b0e5-795717038ac6"@[0] != "794a286c-44d9-4276-83ce-431cba7bab74"@[0]);
    assert("b05db0f8-d845-47d2-b0e5-795717038ac6"@[0] != "011b6ce7-e49d-4fba-beeb-7650bbb26557"@[0]);
    assert("0c857beb-fd95-4449-a669-21fb310cacae"@[0] != "794a286c-44d9-4276-83ce-431cba7bab74"@[0]);
    assert("0c857beb-fd95-4449-a669-21fb310cacae"@[1] != "011b6ce7-e49d-4fba-beeb-7650bbb26557"@[1]);
    assert("794a286c-44d9-4276-83ce-431cba7bab74"@[0] != "011b6ce7-e49d-4fba-beeb-7650bbb26557"@[0]);
}

/// Whether two strings hold the same characters.
fn str_eq(a: &str, b: &str) -> (same: bool)
    ensures
        same == (a@ == b@),
{
    let n = a.unicode_len();
    if n != b.unicode_len() {
        return false;
    }
    let mut i: usize = 0;
    while i < n
        invariant
            n == a@.len(),
            n == b@.len(),
            0 <= i <= n,
            forall|k: int| 0 <= k < i ==> a@[k] == b@[k],
        decreases n - i,
    {
        if a.get_char(i) != b.get_char(i) {
            return false;
        }
        i += 1;
    }
    assert(a@ =~= b@);
    true
}

/// The clip that names the climber with user id `wsid`; climbers without a
/// line of their own are "someone".
pub fn get_player_name(wsid: &str) -> (name: Clip)
    ensures
        name == Clip::Player(voice_for(wsid@)),
{
    let voice = if str_eq(wsid, "5d6b14db-4d41-47a4-93e2-36a3bf229f9b") {
        Voice::Bren
    } else if str_eq(wsid, "d46fb45d-d422-47c9-9785-67270a311e25") {
        Voice::Elconn
    } else if str_eq(wsid, "e5a9863b-1844-4436-a8a8-cea583888f8b") {
        Voice::Hazard
    } else if str_eq(wsid, "e3ff2309-bc24-414a-b9f1-81954236c34b") {
        Voice::Lars
    } else if str_eq(wsid, "d320a237-1b0a-4069-af83-f2c09fbf042e") {
        Voice::Mudda
    } else if str_eq(wsid, "0fd26a9f-8f70-4f51-85e1-fe99a4ed6ffb") {
        Voice::Schmaniol
    } else if str_eq(wsid, "da4642f9-6acf-43fe-88b6-b120ff1308ba") {
        Voice::Scrapie
    } else if str_eq(wsid, "803695f6-8319-4b8e-8c28-44856834fe3b") {
        Voice::Simo
    } else if str_eq(wsid, "f37147a8-36f3-4c58-9577-bf0faff3aafa") {
        Voice::Samifying
    } else if str_eq(wsid, "af30b7a1-fc37-485f-94bf-f00e39805d8c") {
        Voice::Ixxonn
    } else if str_eq(wsid, "076d23a5-51a6-48aa-8d99-9d618cd13c93") {
        Voice::Clover
    } else if str_eq(wsid, "c1e8bbec-8bb3-40b3-9b0e-52e3cb36015e") {
        Voice::Skandear
    } else if str_eq(wsid, "05477e79-25fd-48c2-84c7-e1621aa46517") {
        Voice::Granadyy
    } else if str_eq(wsid, "ed14ac85-1252-4cc7-8efd-49cd72938f9d") {
        Voice::Jxliano
    } else if str_eq(wsid, "fc54a67c-7bd3-4b33-aa7d-a77f13a7b621") {
        Voice::Mtat
    } else if str_eq(wsid, "a65ad790-180b-44cb-8643-7e1e87d15a83") {
        Voice::Gunafunkurmonky
    } else if str_eq(wsid, "f2220e91-6de5-41c4-b4c9-986cefee0c3f") {
        Voice::Bijanz
    } else if str_eq(wsid, "a4699c4c-e6c1-4005-86f6-55888f854e6f") {
        Voice::Talliebird
    } else if str_eq(wsid, "3ac715f3-8838-45de-a165-78db581ee084") {
        Voice::Warl
    } else if str_eq(wsid, "80b2989a-5a17-4d23-b134-46cce29571fa") {
        Voice::Dam
    } else if str_eq(wsid, "ce9e4eb6-be30-429c-9487-20ce620c2de8") {
        Voice::Jave
    } else if str_eq(wsid, "3433b0f2-5acd-47a8-b32c-8c811c984a9f") {
        Voice::Hugo
    } else if str_eq(wsid, "e07e9ea9-daa5-4496-9908-9680e35da02b") {
        Voice::Birdie
    } else if str_eq(wsid, "2f5735f4-04e5-4c9c-a60a-780648c02611") {
        Voice::Tres
    } else if str_eq(wsid, "908bfb12-b5e4-4342-ac68-4e61217375e2") {
        Voice::Tylerz
    } else if str_eq(wsid, "c1299945-2692-42dd-b28d-03c32dea8768") {
        Voice::Youronlyhope7
    } else if str_eq(wsid, "06496fad-70f7-49bc-80c6-d62caa7a9de4") {
        Voice::Hefest
    } else if str_eq(wsid, "b05db0f8-d845-47d2-b0e5-795717038ac6") {
        Voice::Massa
    } else if str_eq(wsid, "0c857beb-fd95-4449-a669-21fb310cacae") {
        Voice::Carljr
    } else if str_eq(wsid, "794a286c-44d9-4276-83ce-431cba7bab74") {
        Voice::Marius
    } else if str_eq(wsid, "011b6ce7-e49d-4fba-beeb-7650bbb26557") {
        Voice::Wally
    } else {
        Voice::Someone
    };
    Clip::Player(voice)
}

/// The clips that call out `floor` after the climber's name.
pub open spec fn floor_call(theme: SoundTheme, floor: i64) -> Seq<Clip> {
    match theme {
        SoundTheme::Announcer => {
            if 1 <= floor <= 16 {
                seq![Clip::HasReachedFloor, Clip::FloorNumber(floor as u8)]
            } else if floor == 17 {
                seq![Clip::IsApproachingTheEnd]
            } else if floor < 11 {
                seq![Clip::HasReachedFloor]
            } else {
                seq![Clip::AlarmAlarm]
            }
        },
        SoundTheme::CustomSound => seq![Clip::AlarmAlarm],
    }
}

/// The four clips an announcement can open with.
pub open spec fn is_alarm_clip(clip: Clip) -> bool {
    clip == Clip::Alarm12 || clip == Clip::Alarm14 || clip == Clip::Alarm16 || clip
        == Clip::AlarmAlarm
}

/// The alarm clip drawn as `choice`: 1, 2 and 3 pick the jingles, anything
/// else the plain alarm.
pub open spec fn alarm_clip_of(choice: u8) -> Clip {
    if choice == 1 {
        Clip::Alarm12
    } else if choice == 2 {
        Clip::Alarm14
    } else if choice == 3 {
        Clip::Alarm16
    } else {
        Clip::AlarmAlarm
    }
}

/// `SliceRandom::choose_mut` of `rand` on the thread-local generator, read
/// out by copy: one element of `items`, picked at random, and `None` only for
/// an empty slice. The slice is left as it was. Which element comes back is
/// chance and is left open.
#[verifier::external_body]
fn choose_with_thread_rng(items: &mut Vec<u8>) -> (picked: Option<u8>)
    ensures
        final(items)@ == old(items)@,
        picked is None <==> old(items)@.len() == 0,
        picked matches Some(x) ==> old(items)@.contains(x),
{
    items.choose_mut(&mut rand::thread_rng()).copied()
}

/// The alarm clip for the drawn `choice`.
pub fn alarm_clip(choice: u8) -> (clip: Clip)
    ensures
        clip == alarm_clip_of(choice),
{
    match choice {
        1 => Clip::Alarm12,
        2 => Clip::Alarm14,
        3 => Clip::Alarm16,
        _ => Clip::AlarmAlarm,
    }
}

/// One of the four alarm clips, drawn at random.
pub fn random_alarm() -> (clip: Clip)
    ensures
        is_alarm_clip(clip),
{
    let mut choices: Vec<u8> = vec![1, 2, 3, 0];
    let picked = choose_with_thread_rng(&mut choices);
    match picked {
        Some(choice) => alarm_clip(choice),
        None => {
            assert(false);
            Clip::AlarmAlarm
        },
    }
}

/// The clips announcing that the climber with user id `user` reached
/// `floor`: a random alarm, the climber's name, then the floor call-out.
pub fn play_for_player_floor(theme: SoundTheme, user: &str, floor: i64) -> (sounds: Vec<Clip>)
    ensures
        sounds@.len() >= 3,
        is_alarm_clip(sounds@[0]),
        sounds@[1] == Clip::Player(voice_for(user@)),
        sounds@.subrange(2, sounds@.len() as int) == floor_call(theme, floor),
{
    let mut sounds: Vec<Clip> = match theme {
        SoundTheme::Announcer => {
            if 1 <= floor && floor <= 16 {
                vec![Clip::HasReachedFloor, Clip::FloorNumber(floor as u8)]
            } else if floor == 17 {
                vec![Clip::IsApproachingTheEnd]
            } else if floor < 11 {
                vec![Clip::HasReachedFloor]
            } else {
                vec![Clip::AlarmAlarm]
            }
        },
        SoundTheme::CustomSound => vec![Clip::AlarmAlarm],
    };
    assert(sounds@ =~= floor_call(theme, floor));
    let ghost call = sounds@;
    sounds.insert(0, get_player_name(user));
    sounds.insert(0, random_alarm());
    assert(sounds@.subrange(2, sounds@.len() as int) =~= call);
    sounds
}

/// The clips of the sound test: a random alarm, then "Bren has reached floor
/// sixteen".
pub fn test_play_sounds() -> (sounds: Vec<Clip>)
    ensures
        sounds@.len() == 4,
        is_alarm_clip(sounds@[0]),
        sounds@.subrange(1, 4) == seq![
            Clip::Player(Voice::Bren),
            Clip::HasReachedFloor,
            Clip::FloorNumber(16),
        ],
{
    let sounds = vec![
        random_alarm(),
        Clip::Player(Voice::Bren),
        Clip::HasReachedFloor,
        Clip::FloorNumber(16),
    ];
    assert(sounds@.subrange(1, 4) =~= seq![
        Clip::Player(Voice::Bren),
        Clip::HasReachedFloor,
        Clip::FloorNumber(16),
    ]);
    sounds
}

} // verus!
