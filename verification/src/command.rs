//! The decision of the `self update` / `self channel` commands: which command
//! parsed matches select and what it asks the updater for.
use crate::workflow::UpdateOptions;
use vstd::prelude::*;
use vstd::string::*;

verus! {

/// What parsed `self` commands ask for.
pub enum DispatchAction {
    /// `update`, with its flags.
    Update(UpdateOptions),
    /// `channel <name>`: switch to the named channel.
    Switch { name: String, yes: bool },
    /// `channel` without a name: show the current channel.
    Show,
    /// No `update` or `channel` subcommand was selected.
    Unrelated,
}

pub open spec fn name_view(o: Option<&str>) -> Option<Seq<char>> {
    match o {
        Some(s) => Some(s@),
        None => None,
    }
}

/// Matches whose selected subcommand is `self` are looked through: the
/// commands dispatched are `self`'s own subcommands.
pub fn looks_through(outer: Option<&str>) -> (r: bool)
    ensures
        r == (name_view(outer) == Some("self"@)),
{
    match outer {
        Some(name) => {
            proof {
                reveal_strlit("self");
            }
            let given = name.to_owned();
            let own = String::from_str("self");
            given == own
        },
        None => false,
    }
}

/// The subcommand dispatched: `inner` (the subcommand of `self`) when the
/// outer matches selected `self`, else the outer selection itself.
pub open spec fn dispatched(outer: Option<Seq<char>>, inner: Option<Seq<char>>) -> Option<
    Seq<char>,
> {
    if outer == Some("self"@) {
        inner
    } else {
        outer
    }
}

/// What the dispatched subcommand asks for, given its flags and channel name.
pub open spec fn dispatch_spec(
    sub: Option<Seq<char>>,
    check: bool,
    force: bool,
    yes: bool,
    name: Option<Seq<char>>,
) -> DispatchActionView {
    if sub == Some("update"@) {
        DispatchActionView::Update(UpdateOptions { force, yes, check })
    } else if sub == Some("channel"@) {
        match name {
            Some(n) => DispatchActionView::Switch(n, yes),
            None => DispatchActionView::Show,
        }
    } else {
        DispatchActionView::Unrelated
    }
}

/// A dispatch decision as the values it carries.
pub enum DispatchActionView {
    Update(UpdateOptions),
    Switch(Seq<char>, bool),
    Show,
    Unrelated,
}

pub open spec fn dispatch_view(a: DispatchAction) -> DispatchActionView {
    match a {
        DispatchAction::Update(o) => DispatchActionView::Update(o),
        DispatchAction::Switch { name, yes } => DispatchActionView::Switch(name@, yes),
        DispatchAction::Show => DispatchActionView::Show,
        DispatchAction::Unrelated => DispatchActionView::Unrelated,
    }
}

/// What parsed matches ask for: `outer` is the subcommand the matches
/// selected, `inner` the one `outer`'s matches selected; `check`, `force`,
/// `yes` and `name` are read from the dispatched subcommand. `update` gives its
/// options, `channel` a switch to the named channel or, without a name, the
/// current channel shown; anything else is unrelated.
pub fn dispatch_action(
    outer: Option<&str>,
    inner: Option<&str>,
    check: bool,
    force: bool,
    yes: bool,
    name: Option<String>,
) -> (r: DispatchAction)
    ensures
        dispatch_view(r) == dispatch_spec(
            dispatched(name_view(outer), name_view(inner)),
            check,
            force,
            yes,
            match name {
                Some(n) => Some(n@),
                None => None,
            },
        ),
        dispatched(name_view(outer), name_view(inner)) == Some("update"@) ==> (r matches DispatchAction::Update(o)
            && o.check == check && o.force == force && o.yes == yes),
        dispatched(name_view(outer), name_view(inner)) == Some("channel"@) ==> match name {
            Some(n) => r matches DispatchAction::Switch { name: m, yes: y } && m@ == n@ && y == yes,
            None => r is Show,
        },
        dispatched(name_view(outer), name_view(inner)) != Some("update"@) && dispatched(
            name_view(outer),
            name_view(inner),
        ) != Some("channel"@) ==> r is Unrelated,
{
    let sub = if looks_through(outer) {
        inner
    } else {
        outer
    };
    proof {
        reveal_strlit("update");
        reveal_strlit("channel");
        assert("channel"@.len() != "update"@.len());
    }
    match sub {
        Some(s) => {
            let given = s.to_owned();
            let update = String::from_str("update");
            let channel = String::from_str("channel");
            if given == update {
                DispatchAction::Update(UpdateOptions { force, yes, check })
            } else if given == channel {
                match name {
                    Some(n) => DispatchAction::Switch { name: n, yes },
                    None => DispatchAction::Show,
                }
            } else {
                DispatchAction::Unrelated
            }
        },
        None => DispatchAction::Unrelated,
    }
}

/// Root matches that selected `self` dispatch as `self`'s own matches do: the
/// same subcommand, flags and name give the same action. (A subcommand of
/// `self` that is itself named `self` would be looked through once more, so it
/// is left out.)
pub proof fn law_parent_and_self_matches_agree(
    sub: Option<Seq<char>>,
    check: bool,
    force: bool,
    yes: bool,
    name: Option<Seq<char>>,
)
    requires
        sub != Some("self"@),
    ensures
        dispatch_spec(dispatched(Some("self"@), sub), check, force, yes, name) == dispatch_spec(
            dispatched(sub, None),
            check,
            force,
            yes,
            name,
        ),
{
}

/// The `update` subcommand, selected directly or under `self`, asks for an
/// update whose options carry each parsed flag in its own field; `channel`
/// asks to switch to the given name with the given `--yes`, or, without a
/// name, to show the channel.
pub proof fn law_dispatch_carries_flags(
    outer: Option<Seq<char>>,
    inner: Option<Seq<char>>,
    check: bool,
    force: bool,
    yes: bool,
    name: Option<Seq<char>>,
)
    ensures
        dispatched(outer, inner) == Some("update"@) ==> (dispatch_spec(
            dispatched(outer, inner),
            check,
            force,
            yes,
            name,
        ) matches DispatchActionView::Update(o) && o.check == check && o.force == force && o.yes
            == yes),
        dispatched(outer, inner) == Some("channel"@) ==> match name {
            Some(n) => dispatch_spec(dispatched(outer, inner), check, force, yes, name)
                == DispatchActionView::Switch(n, yes),
            None => dispatch_spec(dispatched(outer, inner), check, force, yes, name)
                == DispatchActionView::Show,
        },
        outer == Some("self"@) ==> dispatched(outer, inner) == inner,
        outer != Some("self"@) ==> dispatched(outer, inner) == outer,
{
    reveal_strlit("update");
    reveal_strlit("channel");
    assert("channel"@.len() != "update"@.len());
}

/// Matches that select neither `update` nor `channel`, directly or under
/// `self`, are not dispatched.
pub proof fn law_unrelated_is_not_dispatched(
    sub: Option<Seq<char>>,
    check: bool,
    force: bool,
    yes: bool,
    name: Option<Seq<char>>,
)
    requires
        sub != Some("update"@),
        sub != Some("channel"@),
    ensures
        dispatch_spec(sub, check, force, yes, name) == DispatchActionView::Unrelated,
{
}

} // verus!
