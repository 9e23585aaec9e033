//! Input and output devices.
use vstd::prelude::*;

use crate::text::{join2, join3, same_text};

verus! {

/// An output device that the user can choose.
#[derive(Clone, Debug)]
pub struct DeviceInfo {
    pub name: String,
    pub is_default: bool,
}

/// The meaning of a [`DeviceInfo`].
pub struct DeviceView {
    pub name: Seq<char>,
    pub is_default: bool,
}

impl View for DeviceInfo {
    type V = DeviceView;

    open spec fn view(&self) -> DeviceView {
        DeviceView { name: self.name@, is_default: self.is_default }
    }
}

/// The meaning of a list of devices.
pub open spec fn devices_view(devices: Seq<DeviceInfo>) -> Seq<DeviceView> {
    Seq::new(devices.len(), |i: int| devices[i]@)
}

/// The meaning of a list of names; a device that would not tell its name has none.
pub open spec fn names_view(names: Seq<Option<String>>) -> Seq<Option<Seq<char>>> {
    Seq::new(names.len(), |i: int| crate::text::opt_view(names[i]))
}

/// The devices that told their names, in order, each marked where its name is the default's.
pub open spec fn listed(
    default_name: Option<Seq<char>>,
    names: Seq<Option<Seq<char>>>,
) -> Seq<DeviceView>
    decreases names.len(),
{
    if names.len() == 0 {
        Seq::empty()
    } else {
        let before = listed(default_name, names.drop_last());
        match names.last() {
            Some(name) => before.push(
                DeviceView { name, is_default: default_name == Some(name) },
            ),
            None => before,
        }
    }
}

/// Lists the output devices by name.
pub fn list_devices(default_name: &Option<String>, names: Vec<Option<String>>) -> (r: Vec<
    DeviceInfo,
>)
    ensures
        devices_view(r@) == listed(crate::text::opt_view(*default_name), names_view(names@)),
{
    let mut devices: Vec<DeviceInfo> = Vec::new();
    let mut i: usize = 0;
    let ghost all = names_view(names@);
    assert(devices_view(devices@) =~= Seq::empty());
    while i < names.len()
        invariant
            i <= names@.len(),
            all == names_view(names@),
            devices_view(devices@) == listed(
                crate::text::opt_view(*default_name),
                all.take(i as int),
            ),
        decreases names@.len() - i,
    {
        let ghost before = devices_view(devices@);
        if let Some(name) = &names[i] {
            let is_default: bool = match default_name {
                Some(wanted) => same_text(wanted.as_str(), name.as_str()),
                None => false,
            };
            devices.push(DeviceInfo { name: name.clone(), is_default });
            assert(devices_view(devices@) =~= before.push(devices@.last()@));
        }
        i = i + 1;
        assert(all.take(i as int).drop_last() =~= all.take(i - 1));
        assert(all.take(i as int).last() == crate::text::opt_view(names@[i - 1]));
    }
    assert(all.take(i as int) =~= all);
    devices
}

/// The output device to open.
#[derive(Clone, Copy, Debug, PartialEq, Eq, Structural)]
pub enum OutputChoice {
    /// The system's default.
    Default,
    /// The one at a place in the list of devices.
    Listed(usize),
}

/// What is said of a device that is not there.
pub open spec fn device_missing(name: Seq<char>) -> Seq<char> {
    "Output device '"@ + name + "' not found"@
}

/// Whether a choice of output is right: the first device of the name that was asked for, or the
/// default where none was.
pub open spec fn right_output(
    wanted: Option<Seq<char>>,
    has_default: bool,
    names: Seq<Option<Seq<char>>>,
    choice: Result<OutputChoice, Seq<char>>,
) -> bool {
    match wanted {
        None => choice == if has_default {
            Ok::<OutputChoice, Seq<char>>(OutputChoice::Default)
        } else {
            Err("No default output device"@)
        },
        Some(name) => match choice {
            Ok(OutputChoice::Default) => false,
            Ok(OutputChoice::Listed(i)) => {
                &&& i < names.len()
                &&& names[i as int] == Some(name)
                &&& forall|k: int| 0 <= k < i ==> #[trigger] names[k] != Some(name)
            },
            Err(message) => {
                &&& message == device_missing(name)
                &&& forall|k: int| 0 <= k < names.len() ==> #[trigger] names[k] != Some(name)
            },
        },
    }
}

/// Chooses the output device: the first of the given name, or the default where no name is
/// given.
pub fn choose_output(
    wanted: &Option<String>,
    has_default: bool,
    names: &[Option<String>],
) -> (r: Result<OutputChoice, String>)
    ensures
        right_output(
            crate::text::opt_view(*wanted),
            has_default,
            names_view(names@),
            match r {
                Ok(choice) => Ok(choice),
                Err(message) => Err(message@),
            },
        ),
{
    let ghost all = names_view(names@);
    match wanted {
        None => if has_default {
            Ok(OutputChoice::Default)
        } else {
            Err("No default output device".to_owned())
        },
        Some(name) => {
            let mut i: usize = 0;
            while i < names.len()
                invariant
                    i <= names@.len(),
                    all == names_view(names@),
                    *wanted == Some(*name),
                    forall|k: int| 0 <= k < i ==> #[trigger] all[k] != Some(name@),
                decreases names@.len() - i,
            {
                if let Some(found) = &names[i] {
                    if same_text(found.as_str(), name.as_str()) {
                        assert(all[i as int] == Some(name@));
                        return Ok(OutputChoice::Listed(i));
                    }
                }
                assert(all[i as int] != Some(name@));
                i = i + 1;
            }
            Err(join3("Output device '", name.as_str(), "' not found"))
        },
    }
}

/// Refuses to listen where the system has no default microphone.
pub fn check_input(has_default: bool) -> (r: Result<(), String>)
    ensures
        match r {
            Ok(()) => has_default,
            Err(message) => !has_default && message@ == "No default input device"@,
        },
{
    if has_default {
        Ok(())
    } else {
        Err("No default input device".to_owned())
    }
}

/// How a device hands over a sample.
#[derive(Clone, Copy, Debug, PartialEq, Eq, Structural)]
pub enum SampleKind {
    F32,
    I16,
    I32,
}

/// The kinds of samples that are taken from a microphone.
pub open spec fn input_kind(format: Seq<char>) -> Result<SampleKind, Seq<char>> {
    if format == "F32"@ {
        Ok(SampleKind::F32)
    } else if format == "I16"@ {
        Ok(SampleKind::I16)
    } else if format == "I32"@ {
        Ok(SampleKind::I32)
    } else {
        Err("Unsupported input sample format: "@ + format)
    }
}

/// The kinds of samples that are given to a loudspeaker.
pub open spec fn output_kind(format: Seq<char>) -> Result<SampleKind, Seq<char>> {
    if format == "F32"@ {
        Ok(SampleKind::F32)
    } else {
        Err("Unsupported output sample format: "@ + format)
    }
}

/// The meaning of a kind of sample or an error message.
pub open spec fn kind_view(r: Result<SampleKind, String>) -> Result<SampleKind, Seq<char>> {
    match r {
        Ok(kind) => Ok(kind),
        Err(message) => Err(message@),
    }
}

/// Tells how to take samples from a microphone, by the name of its format.
pub fn input_format(format: &str) -> (r: Result<SampleKind, String>)
    ensures
        kind_view(r) == input_kind(format@),
{
    if same_text(format, "F32") {
        Ok(SampleKind::F32)
    } else if same_text(format, "I16") {
        Ok(SampleKind::I16)
    } else if same_text(format, "I32") {
        Ok(SampleKind::I32)
    } else {
        Err(join2("Unsupported input sample format: ", format))
    }
}

/// Tells how to give samples to a loudspeaker, by the name of its format.
pub fn output_format(format: &str) -> (r: Result<SampleKind, String>)
    ensures
        kind_view(r) == output_kind(format@),
{
    if same_text(format, "F32") {
        Ok(SampleKind::F32)
    } else {
        Err(join2("Unsupported output sample format: ", format))
    }
}

/// A device is listed under a name exactly where a device told that name.
proof fn lemma_listed_names(
    default_name: Option<Seq<char>>,
    names: Seq<Option<Seq<char>>>,
    name: Seq<char>,
)
    ensures
        (exists|d: int|
            0 <= d < listed(default_name, names).len() && (#[trigger] listed(
                default_name,
                names,
            )[d]).name == name) <==> names.contains(Some(name)),
    decreases names.len(),
{
    let list = listed(default_name, names);
    if names.len() > 0 {
        let init = names.drop_last();
        let before = listed(default_name, init);
        lemma_listed_names(default_name, init, name);
        if names.contains(Some(name)) {
            if names.last() == Some(name) {
                assert(list[list.len() - 1].name == name);
            } else {
                let k = choose|k: int| 0 <= k < names.len() && names[k] == Some(name);
                assert(init[k] == Some(name));
                let d = choose|d: int| 0 <= d < before.len() && (#[trigger] before[d]).name == name;
                assert(list[d].name == name);
            }
        }
        if exists|d: int| 0 <= d < list.len() && (#[trigger] list[d]).name == name {
            let d = choose|d: int| 0 <= d < list.len() && (#[trigger] list[d]).name == name;
            if d < before.len() {
                assert(before[d].name == name);
                let k = choose|k: int| 0 <= k < init.len() && init[k] == Some(name);
                assert(names[k] == Some(name));
            } else {
                assert(names[names.len() - 1] == Some(name));
            }
        }
    }
}

/// A device can be chosen by a name exactly where it is listed under that name.
pub proof fn law_listed_devices_can_be_chosen(
    default_name: Option<Seq<char>>,
    has_default: bool,
    names: Seq<Option<Seq<char>>>,
    name: Seq<char>,
    choice: Result<OutputChoice, Seq<char>>,
)
    requires
        right_output(Some(name), has_default, names, choice),
    ensures
        choice is Ok <==> exists|d: int|
            0 <= d < listed(default_name, names).len() && (#[trigger] listed(
                default_name,
                names,
            )[d]).name == name,
{
    lemma_listed_names(default_name, names, name);
}

/// Only devices of the default's name are marked as the default, and all of them are.
pub proof fn law_default_is_marked(
    default_name: Option<Seq<char>>,
    names: Seq<Option<Seq<char>>>,
)
    ensures
        forall|d: int|
            0 <= d < listed(default_name, names).len() ==> ((#[trigger] listed(
                default_name,
                names,
            )[d]).is_default <==> default_name == Some(listed(default_name, names)[d].name)),
    decreases names.len(),
{
    if names.len() > 0 {
        let before = listed(default_name, names.drop_last());
        law_default_is_marked(default_name, names.drop_last());
        let list = listed(default_name, names);
        assert forall|d: int| 0 <= d < list.len() implies ((#[trigger] list[d]).is_default
            <==> default_name == Some(list[d].name)) by {
            if d < before.len() {
                assert(list[d] == before[d]);
            }
        }
    }
}

/// Devices are listed one by one in their order: one that told its name once, under that name,
/// and one that told none not at all.
pub proof fn law_devices_are_listed_in_order(
    default_name: Option<Seq<char>>,
    above: Seq<Option<Seq<char>>>,
    below: Seq<Option<Seq<char>>>,
    name: Seq<char>,
)
    ensures
        listed(default_name, above + below) == listed(default_name, above) + listed(
            default_name,
            below,
        ),
        listed(default_name, seq![None]) == Seq::<DeviceView>::empty(),
        listed(default_name, seq![Some(name)]) == seq![
            DeviceView { name, is_default: default_name == Some(name) },
        ],
    decreases below.len(),
{
    reveal_with_fuel(listed, 2);
    assert(seq![None::<Seq<char>>].drop_last() =~= Seq::empty());
    assert(seq![Some(name)].drop_last() =~= Seq::empty());
    assert(listed(default_name, seq![Some(name)]) =~= seq![
        DeviceView { name, is_default: default_name == Some(name) },
    ]);
    if below.len() == 0 {
        assert(above + below =~= above);
        assert(listed(default_name, above) + listed(default_name, below) =~= listed(
            default_name,
            above,
        ));
    } else {
        law_devices_are_listed_in_order(default_name, above, below.drop_last(), name);
        assert((above + below).drop_last() =~= above + below.drop_last());
        assert(listed(default_name, above + below) =~= listed(default_name, above) + listed(
            default_name,
            below,
        ));
    }
}

/// Unasked, the default device plays, and its want is reported; asked for by a name, the first
/// device of that name plays, and the name is reported where there is none.
pub proof fn law_output_is_the_one_asked_for(
    wanted: Option<Seq<char>>,
    has_default: bool,
    names: Seq<Option<Seq<char>>>,
    choice: Result<OutputChoice, Seq<char>>,
)
    requires
        right_output(wanted, has_default, names, choice),
    ensures
        wanted is None && has_default ==> choice == Ok::<OutputChoice, Seq<char>>(
            OutputChoice::Default,
        ),
        wanted is None && !has_default ==> choice == Err::<OutputChoice, Seq<char>>(
            "No default output device"@,
        ),
        wanted is Some && !names.contains(wanted) ==> choice == Err::<OutputChoice, Seq<char>>(
            "Output device '"@ + wanted->0 + "' not found"@,
        ),
        wanted is Some && names.contains(wanted) ==> match choice {
            Ok(OutputChoice::Listed(i)) => i < names.len() && names[i as int] == wanted
                && !names.take(i as int).contains(wanted),
            _ => false,
        },
{
    if wanted is Some {
        if let Ok(OutputChoice::Listed(i)) = choice {
            assert(names.contains(names[i as int]));
            assert forall|k: int| 0 <= k < i implies names.take(i as int)[k] != wanted by {
                assert(names[k] != wanted);
            }
        }
    }
}

/// A microphone may hand over three kinds of samples, a loudspeaker takes one, and any other
/// format is named in the refusal.
pub proof fn law_formats_are_told_by_name(format: Seq<char>)
    ensures
        input_kind("F32"@) == Ok::<SampleKind, Seq<char>>(SampleKind::F32),
        input_kind("I16"@) == Ok::<SampleKind, Seq<char>>(SampleKind::I16),
        input_kind("I32"@) == Ok::<SampleKind, Seq<char>>(SampleKind::I32),
        format != "F32"@ && format != "I16"@ && format != "I32"@ ==> input_kind(format) == Err::<
            SampleKind,
            Seq<char>,
        >("Unsupported input sample format: "@ + format),
        output_kind("F32"@) == Ok::<SampleKind, Seq<char>>(SampleKind::F32),
        format != "F32"@ ==> output_kind(format) == Err::<SampleKind, Seq<char>>(
            "Unsupported output sample format: "@ + format,
        ),
{
    reveal_strlit("F32");
    reveal_strlit("I16");
    reveal_strlit("I32");
    assert("F32"@[0] != "I16"@[0]);
    assert("F32"@[0] != "I32"@[0]);
    assert("I16"@[1] != "I32"@[1]);
}

} // verus!
