//! The kernel arguments that a GPU image needs: which parameters are
//! managed, what the host is asked to do with them in each phase, and what a
//! phase makes of a list of boot parameters.

use crate::text::reads_as;
use vstd::prelude::*;
use vstd::string::*;

verus! {

/// The two phases of the configuration, in the order in which they run.
#[derive(Clone, Copy, Debug, PartialEq, Eq, Structural)]
pub enum KernelArgPhase {
    /// Removes the managed parameters where they are present.
    Cleanup,
    /// Appends the managed parameters.
    Append,
}

/// The boot parameters that are managed, in the order in which they are
/// handed to the host: two keep the open driver from loading, the third
/// turns mode setting on for the proprietary one.
pub open spec fn managed_parameters() -> Seq<Seq<char>> {
    seq!["rd.driver.blacklist=nouveau"@, "modprobe.blacklist=nouveau"@, "nvidia-drm.modeset=1"@]
}

/// Whether a boot parameter is one of the managed ones.
pub open spec fn is_managed(parameter: Seq<char>) -> bool {
    ||| parameter == "rd.driver.blacklist=nouveau"@
    ||| parameter == "modprobe.blacklist=nouveau"@
    ||| parameter == "nvidia-drm.modeset=1"@
}

/// The test that picks the parameters a cleanup leaves alone.
pub open spec fn is_foreign() -> spec_fn(Seq<char>) -> bool {
    |parameter: Seq<char>| !is_managed(parameter)
}

/// The option by which a phase names a parameter to the host.
pub open spec fn phase_option(phase: KernelArgPhase) -> Seq<char> {
    match phase {
        KernelArgPhase::Cleanup => "--delete-if-exists="@,
        KernelArgPhase::Append => "--append="@,
    }
}

/// The arguments that the host's kernel-argument command is run with in a
/// phase: the subcommand, then one option for each managed parameter.
pub open spec fn phase_arguments(phase: KernelArgPhase) -> Seq<Seq<char>> {
    seq![
        "kargs"@,
        phase_option(phase) + managed_parameters()[0],
        phase_option(phase) + managed_parameters()[1],
        phase_option(phase) + managed_parameters()[2],
    ]
}

/// What the cleanup phase leaves of a list of boot parameters: every
/// occurrence of a managed parameter is gone, the rest keeps its order.
pub open spec fn cleaned(parameters: Seq<Seq<char>>) -> Seq<Seq<char>> {
    parameters.filter(is_foreign())
}

/// What the append phase makes of a list of boot parameters.
pub open spec fn appended(parameters: Seq<Seq<char>>) -> Seq<Seq<char>> {
    parameters + managed_parameters()
}

/// What one phase makes of a list of boot parameters.
pub open spec fn after_phase(parameters: Seq<Seq<char>>, phase: KernelArgPhase) -> Seq<
    Seq<char>,
> {
    match phase {
        KernelArgPhase::Cleanup => cleaned(parameters),
        KernelArgPhase::Append => appended(parameters),
    }
}

/// What the whole configuration makes of a list of boot parameters.
pub open spec fn configured(parameters: Seq<Seq<char>>) -> Seq<Seq<char>> {
    appended(cleaned(parameters))
}

/// The test that picks the occurrences of `parameter`.
pub open spec fn is_same_as(parameter: Seq<char>) -> spec_fn(Seq<char>) -> bool {
    |other: Seq<char>| other == parameter
}

/// How often `parameter` occurs in `parameters`.
pub open spec fn occurrences(parameters: Seq<Seq<char>>, parameter: Seq<char>) -> nat {
    parameters.filter(is_same_as(parameter)).len()
}

/// The managed parameters, in the order in which they are handed to the
/// host.
pub fn managed_kernel_parameters() -> (parameters: Vec<String>)
    ensures
        parameters.deep_view() == managed_parameters(),
{
    let mut parameters: Vec<String> = Vec::new();
    parameters.push(String::from_str("rd.driver.blacklist=nouveau"));
    parameters.push(String::from_str("modprobe.blacklist=nouveau"));
    parameters.push(String::from_str("nvidia-drm.modeset=1"));
    assert(parameters.deep_view() =~= managed_parameters());
    parameters
}

/// Whether a boot parameter is one of the managed ones.
pub fn is_managed_parameter(parameter: &str) -> (managed: bool)
    ensures
        managed == is_managed(parameter@),
{
    reads_as(parameter, "rd.driver.blacklist=nouveau") || reads_as(
        parameter,
        "modprobe.blacklist=nouveau",
    ) || reads_as(parameter, "nvidia-drm.modeset=1")
}

/// The arguments that the host's kernel-argument command is run with in a
/// phase.
pub fn kernel_arg_arguments(phase: KernelArgPhase) -> (arguments: Vec<String>)
    ensures
        arguments.deep_view() == phase_arguments(phase),
{
    let managed = managed_kernel_parameters();
    let mut arguments: Vec<String> = Vec::new();
    arguments.push(String::from_str("kargs"));
    let mut at: usize = 0;
    assert(managed@.len() == managed.deep_view().len());
    while at < 3
        invariant
            at <= 3,
            managed@.len() == 3,
            managed.deep_view() == managed_parameters(),
            arguments@.len() == at + 1,
            arguments@[0]@ == "kargs"@,
            forall|i: int|
                1 <= i <= at ==> (#[trigger] arguments@[i])@ == phase_option(phase)
                    + managed_parameters()[i - 1],
        decreases 3 - at,
    {
        let mut argument = match phase {
            KernelArgPhase::Cleanup => String::from_str("--delete-if-exists="),
            KernelArgPhase::Append => String::from_str("--append="),
        };
        assert(managed.deep_view()[at as int] == managed@[at as int]@);
        argument.append(managed[at].as_str());
        arguments.push(argument);
        at += 1;
    }
    assert(arguments.deep_view() =~= phase_arguments(phase));
    arguments
}

/// What one phase makes of a list of boot parameters. The host carries the
/// phases out; this is what is asked of it.
pub fn apply_phase(parameters: &Vec<String>, phase: KernelArgPhase) -> (edited: Vec<String>)
    ensures
        edited.deep_view() == after_phase(parameters.deep_view(), phase),
{
    let mut edited: Vec<String> = Vec::new();
    let mut at: usize = 0;
    let ghost all = parameters.deep_view();
    assert(all.take(0) =~= Seq::<Seq<char>>::empty());
    assert(edited.deep_view() =~= Seq::<Seq<char>>::empty());
    proof {
        reveal(Seq::filter);
    }
    while at < parameters.len()
        invariant
            at <= parameters.len(),
            all == parameters.deep_view(),
            match phase {
                KernelArgPhase::Cleanup => edited.deep_view() == cleaned(all.take(at as int)),
                KernelArgPhase::Append => edited.deep_view() == all.take(at as int),
            },
        decreases parameters.len() - at,
    {
        let keep = match phase {
            KernelArgPhase::Cleanup => !is_managed_parameter(parameters[at].as_str()),
            KernelArgPhase::Append => true,
        };
        proof {
            let seen = all.take(at as int);
            let next = all[at as int];
            assert(next == parameters@[at as int]@);
            assert(all.take(at + 1) =~= seen.push(next));
            seen.lemma_filter_push(next, is_foreign());
        }
        if keep {
            let ghost before = edited.deep_view();
            edited.push(parameters[at].clone());
            assert(edited.deep_view() =~= before.push(all[at as int]));
        }
        at += 1;
    }
    assert(all.take(at as int) =~= all);
    match phase {
        KernelArgPhase::Cleanup => {},
        KernelArgPhase::Append => {
            let managed = managed_kernel_parameters();
            let mut from: usize = 0;
            while from < managed.len()
                invariant
                    from <= managed.len(),
                    managed.deep_view() == managed_parameters(),
                    edited.deep_view() == all + managed_parameters().take(from as int),
                decreases managed.len() - from,
            {
                let ghost before = edited.deep_view();
                edited.push(managed[from].clone());
                proof {
                    let next = managed_parameters()[from as int];
                    assert(managed.deep_view()[from as int] == managed@[from as int]@);
                    assert(edited.deep_view() =~= before.push(next));
                    assert(managed_parameters().take(from + 1) =~= managed_parameters().take(
                        from as int,
                    ).push(next));
                }
                from += 1;
            }
            assert(managed_parameters().take(from as int) =~= managed_parameters());
        },
    }
    edited
}

/// A filter keeps a list whose items all pass, and empties one whose items
/// all fail.
proof fn lemma_filter_all_or_none(items: Seq<Seq<char>>, test: spec_fn(Seq<char>) -> bool)
    ensures
        (forall|i: int| 0 <= i < items.len() ==> test(#[trigger] items[i])) ==> items.filter(test)
            == items,
        (forall|i: int| 0 <= i < items.len() ==> !test(#[trigger] items[i])) ==> items.filter(
            test,
        ) == Seq::<Seq<char>>::empty(),
    decreases items.len(),
{
    reveal(Seq::filter);
    if items.len() > 0 {
        lemma_filter_all_or_none(items.drop_last(), test);
        assert(items.drop_last().push(items.last()) =~= items);
    } else {
        assert(items =~= Seq::<Seq<char>>::empty());
    }
}

/// The three managed parameters differ from one another.
proof fn lemma_managed_differ()
    ensures
        managed_parameters()[0] != managed_parameters()[1],
        managed_parameters()[0] != managed_parameters()[2],
        managed_parameters()[1] != managed_parameters()[2],
{
    reveal_strlit("rd.driver.blacklist=nouveau");
    reveal_strlit("modprobe.blacklist=nouveau");
    reveal_strlit("nvidia-drm.modeset=1");
    assert("rd.driver.blacklist=nouveau"@[0] == 'r');
    assert("modprobe.blacklist=nouveau"@[0] == 'm');
    assert("nvidia-drm.modeset=1"@[0] == 'n');
}

/// A cleanup leaves no managed parameter behind.
pub proof fn lemma_cleanup_removes_managed(parameters: Seq<Seq<char>>)
    ensures
        forall|i: int|
            0 <= i < cleaned(parameters).len() ==> !is_managed(#[trigger] cleaned(parameters)[i]),
{
    assert forall|i: int| 0 <= i < cleaned(parameters).len() implies !is_managed(
        #[trigger] cleaned(parameters)[i],
    ) by {
        parameters.lemma_filter_pred(is_foreign(), i);
    }
}

/// Cleaning up twice in a row leaves what cleaning up once leaves.
pub proof fn lemma_cleanup_idempotent(parameters: Seq<Seq<char>>)
    ensures
        after_phase(after_phase(parameters, KernelArgPhase::Cleanup), KernelArgPhase::Cleanup)
            == after_phase(parameters, KernelArgPhase::Cleanup),
{
    lemma_cleanup_removes_managed(parameters);
    lemma_filter_all_or_none(cleaned(parameters), is_foreign());
}

/// Configuring a list that has been configured before leaves it as it is:
/// the cleanup takes out what the earlier run appended.
pub proof fn lemma_configuration_idempotent(parameters: Seq<Seq<char>>)
    ensures
        configured(configured(parameters)) == configured(parameters),
{
    let kept = cleaned(parameters);
    lemma_cleanup_idempotent(parameters);
    Seq::filter_distributes_over_add(kept, managed_parameters(), is_foreign());
    lemma_filter_all_or_none(managed_parameters(), is_foreign());
    assert(kept + Seq::<Seq<char>>::empty() =~= kept);
}

/// After the configuration each managed parameter occurs exactly once,
/// however often it occurred before.
pub proof fn lemma_configured_once(parameters: Seq<Seq<char>>, parameter: Seq<char>)
    requires
        is_managed(parameter),
    ensures
        occurrences(configured(parameters), parameter) == 1,
{
    let same = is_same_as(parameter);
    let kept = cleaned(parameters);
    let managed = managed_parameters();
    lemma_cleanup_removes_managed(parameters);
    lemma_filter_all_or_none(kept, same);
    lemma_managed_differ();
    Seq::filter_distributes_over_add(kept, managed, same);
    assert(kept.filter(same) == Seq::<Seq<char>>::empty());
    assert(managed.filter(same) =~= seq![parameter]) by {
        reveal_with_fuel(Seq::filter, 4);
        assert(managed.drop_last() =~= seq![managed[0], managed[1]]);
        assert(managed.drop_last().drop_last() =~= seq![managed[0]]);
        assert(managed.drop_last().drop_last().drop_last() =~= Seq::<Seq<char>>::empty());
    }
}

} // verus!
