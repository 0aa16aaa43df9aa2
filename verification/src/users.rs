//! The users behind the identities of a request, named by the `etc-passwd` crate.

use vstd::prelude::*;

verus! {

/// The detail `uid` of an identity.
pub enum UidDetail {
    /// The identity has no such detail.
    Missing,
    /// It has one, but not an unsigned integer of 32 bits.
    NotU32,
    U32(u32),
}

/// One of the identities that may answer a request.
pub struct Identity {
    /// What the identity is, such as `unix-user`.
    pub kind: String,
    pub uid: UidDetail,
}

/// An identity with its kind as a sequence of characters.
pub struct IdentityView {
    pub kind: Seq<char>,
    pub uid: UidDetail,
}

impl View for Identity {
    type V = IdentityView;

    open spec fn view(&self) -> IdentityView {
        IdentityView { kind: self.kind@, uid: self.uid }
    }
}

impl DeepView for Identity {
    type V = IdentityView;

    open spec fn deep_view(&self) -> IdentityView {
        self@
    }
}

impl IdentityView {
    pub open spec fn is_unix_user(self) -> bool {
        self.kind == "unix-user"@
    }

    /// An identity that is a Unix user has a `uid`.
    pub open spec fn well_formed(self) -> bool {
        self.is_unix_user() ==> !(self.uid is Missing)
    }
}

/// Every identity that is a Unix user has a `uid`.
pub open spec fn all_well_formed(identities: Seq<IdentityView>) -> bool {
    forall|i: int| 0 <= i < identities.len() ==> (#[trigger] identities[i]).well_formed()
}

/// The user ids of the Unix users among the identities, in their order.
pub open spec fn uids_of(identities: Seq<IdentityView>) -> Seq<u32>
    decreases identities.len(),
{
    if identities.len() == 0 {
        Seq::empty()
    } else {
        let rest = uids_of(identities.drop_last());
        match identities.last().uid {
            UidDetail::U32(uid) if identities.last().is_unix_user() => rest.push(uid),
            _ => rest,
        }
    }
}

/// The names among the answers, in their order.
pub open spec fn names_of(answers: Seq<Option<Seq<char>>>) -> Seq<Seq<char>>
    decreases answers.len(),
{
    if answers.len() == 0 {
        Seq::empty()
    } else {
        let rest = names_of(answers.drop_last());
        match answers.last() {
            Some(name) => rest.push(name),
            None => rest,
        }
    }
}

/// With some contents of the user database, `answer` is the name found for the user id `uid`, or
/// `None` where no user with a name in UTF-8 is found. This is a relation: the database changes.
pub uninterp spec fn is_user_name(uid: u32, answer: Option<Seq<char>>) -> bool;

/// Calls `etc_passwd::Passwd::from_uid` and takes the name out of the entry, and claims only that
/// this is an answer of the user database for that user id. A failed lookup, no entry and a name
/// that is not UTF-8 all give `None`. What the database holds is not said, and two calls may
/// differ.
#[verifier::external_body]
pub(crate) fn user_name(uid: u32) -> (answer: Option<String>)
    ensures
        is_user_name(uid, answer.deep_view()),
{
    match etc_passwd::Passwd::from_uid(uid) {
        Ok(Some(entry)) => entry.name.into_string().ok(),
        Ok(None) => None,
        Err(_) => None,
    }
}

/// Each answer is one for the user id at the same place.
pub open spec fn are_user_names(uids: Seq<u32>, answers: Seq<Option<Seq<char>>>) -> bool {
    &&& answers.len() == uids.len()
    &&& forall|i: int| 0 <= i < answers.len() ==> is_user_name(uids[i], #[trigger] answers[i])
}

/// With some contents of the user database, these are the names of the users behind the
/// identities.
pub open spec fn may_answer(identities: Seq<IdentityView>, names: Seq<Seq<char>>) -> bool {
    exists|answers: Seq<Option<Seq<char>>>|
        {
            &&& are_user_names(uids_of(identities), answers)
            &&& names == #[trigger] names_of(answers)
        }
}

/// For some process and some contents of the user database, `answer` is the name of the user that
/// the process runs as, or `None` where no such user with a name in UTF-8 is found.
pub uninterp spec fn is_current_user_name(answer: Option<Seq<char>>) -> bool;

/// Calls `etc_passwd::Passwd::current_user` and takes the name out of the entry, and claims only
/// that this is an answer of the user database for the current user. A failed lookup, no entry
/// and a name that is not UTF-8 all give `None`.
#[verifier::external_body]
pub(crate) fn current_user_name() -> (answer: Option<String>)
    ensures
        is_current_user_name(answer.deep_view()),
{
    match etc_passwd::Passwd::current_user() {
        Ok(Some(entry)) => entry.name.into_string().ok(),
        Ok(None) => None,
        Err(_) => None,
    }
}

/// Whether every identity that is a Unix user has a `uid`.
pub fn well_formed(identities: &Vec<Identity>) -> (r: bool)
    ensures
        r == all_well_formed(identities.deep_view()),
{
    let ghost all = identities.deep_view();
    let unix_user = "unix-user".to_owned();
    let mut i: usize = 0;
    while i < identities.len()
        invariant
            i <= identities.len(),
            all == identities.deep_view(),
            unix_user@ == "unix-user"@,
            forall|j: int| 0 <= j < i ==> (#[trigger] all[j]).well_formed(),
        decreases identities.len() - i,
    {
        assert(all[i as int] == identities[i as int]@);
        if identities[i].kind == unix_user {
            if let UidDetail::Missing = identities[i].uid {
                return false;
            }
        }
        i = i + 1;
    }
    true
}

/// The user ids to look up, in order: one for each identity that is a Unix user with a user id of
/// 32 bits.
pub fn unix_uids(identities: &Vec<Identity>) -> (r: Vec<u32>)
    requires
        all_well_formed(identities.deep_view()),
    ensures
        r@ == uids_of(identities.deep_view()),
{
    let ghost all = identities.deep_view();
    let unix_user = "unix-user".to_owned();
    let mut uids: Vec<u32> = Vec::new();
    let mut i: usize = 0;
    while i < identities.len()
        invariant
            i <= identities.len(),
            all == identities.deep_view(),
            unix_user@ == "unix-user"@,
            uids@ == uids_of(all.take(i as int)),
        decreases identities.len() - i,
    {
        assert(all.take(i + 1).drop_last() == all.take(i as int));
        assert(all.take(i + 1).last() == identities[i as int]@);
        if identities[i].kind == unix_user {
            if let UidDetail::U32(uid) = identities[i].uid {
                uids.push(uid);
            }
        }
        i = i + 1;
    }
    assert(all.take(i as int) == all);
    uids
}

/// Drops the lookups that found nobody.
pub fn found_names(answers: &Vec<Option<String>>) -> (r: Vec<String>)
    ensures
        r.deep_view() == names_of(answers.deep_view()),
{
    let ghost all = answers.deep_view();
    let mut names: Vec<String> = Vec::new();
    let mut i: usize = 0;
    assert(names.deep_view() == names_of(all.take(0)));
    while i < answers.len()
        invariant
            i <= answers.len(),
            all == answers.deep_view(),
            names.deep_view() == names_of(all.take(i as int)),
        decreases answers.len() - i,
    {
        assert(all.take(i + 1).drop_last() == all.take(i as int));
        let ghost before = names.deep_view();
        if let Some(name) = &answers[i] {
            names.push(name.clone());
            assert(names.deep_view() == before.push(name@));
        }
        i = i + 1;
    }
    assert(all.take(i as int) == all);
    names
}

/// The names of the users behind the identities, as the user database has them: the identities
/// that are no Unix users, and the users that it does not know, are passed over.
pub fn user_names(identities: &Vec<Identity>) -> (r: Vec<String>)
    requires
        all_well_formed(identities.deep_view()),
    ensures
        exists|answers: Seq<Option<Seq<char>>>|
            {
                &&& are_user_names(uids_of(identities.deep_view()), answers)
                &&& r.deep_view() == #[trigger] names_of(answers)
            },
        may_answer(identities.deep_view(), r.deep_view()),
{
    let uids = unix_uids(identities);
    let mut answers: Vec<Option<String>> = Vec::new();
    let mut i: usize = 0;
    while i < uids.len()
        invariant
            i <= uids.len(),
            answers.len() == i,
            forall|j: int|
                0 <= j < i ==> is_user_name(uids[j], (#[trigger] answers@[j]).deep_view()),
        decreases uids.len() - i,
    {
        answers.push(user_name(uids[i]));
        i = i + 1;
    }
    let names = found_names(&answers);
    proof {
        let found = answers.deep_view();
        assert(names.deep_view() == names_of(found));
        assert forall|j: int| 0 <= j < found.len() implies is_user_name(
            uids@[j],
            #[trigger] found[j],
        ) by {
            assert(is_user_name(uids[j], answers@[j].deep_view()));
        }
    }
    names
}

/// The user ids that are looked up are those of the identities of kind `unix-user` with a user id
/// of 32 bits: one for each, whatever the id, in their order, and no others.
pub proof fn every_unix_user_is_looked_up(identities: Seq<IdentityView>)
    ensures
        uids_of(identities) == identities.filter(
            |identity: IdentityView| identity.kind == "unix-user"@ && identity.uid is U32,
        ).map_values(|identity: IdentityView| identity.uid->U32_0),
        forall|i: int|
            0 <= i < identities.len() && (#[trigger] identities[i]).kind == "unix-user"@ && (
            identities[i].uid is U32) ==> uids_of(identities).contains(identities[i].uid->U32_0),
    decreases identities.len(),
{
    reveal(Seq::filter);
    if identities.len() > 0 {
        let sooner = identities.drop_last();
        every_unix_user_is_looked_up(sooner);
        let last = identities.last();
        let rest = uids_of(sooner);
        assert forall|i: int|
            0 <= i < identities.len() && (#[trigger] identities[i]).kind == "unix-user"@ && (
            identities[i].uid is U32) implies uids_of(identities).contains(
            identities[i].uid->U32_0,
        ) by {
            if i < sooner.len() {
                assert(sooner[i] == identities[i]);
                let k = choose|k: int| 0 <= k < rest.len() && rest[k] == sooner[i].uid->U32_0;
                assert(uids_of(identities)[k] == rest[k]);
            } else {
                assert(uids_of(identities).last() == last.uid->U32_0);
            }
        }
    }
}

/// Everyone whom the user database names may answer, under that very name and in the order of the
/// lookups; a lookup without a name is passed over.
pub proof fn every_name_that_is_found_is_offered(answers: Seq<Option<Seq<char>>>)
    ensures
        names_of(answers) == answers.filter(
            |answer: Option<Seq<char>>| answer is Some,
        ).map_values(|answer: Option<Seq<char>>| answer->0),
        (forall|i: int| 0 <= i < answers.len() ==> (#[trigger] answers[i]) is Some)
            ==> names_of(answers).len() == answers.len(),
        forall|i: int|
            0 <= i < answers.len() && (#[trigger] answers[i]) is Some ==> names_of(
                answers,
            ).contains(answers[i]->0),
    decreases answers.len(),
{
    reveal(Seq::filter);
    if answers.len() > 0 {
        let sooner = answers.drop_last();
        every_name_that_is_found_is_offered(sooner);
        let rest = names_of(sooner);
        assert forall|i: int| 0 <= i < answers.len() && (
        #[trigger] answers[i]) is Some implies names_of(answers).contains(answers[i]->0) by {
            if i < sooner.len() {
                assert(sooner[i] == answers[i]);
                let k = choose|k: int| 0 <= k < rest.len() && rest[k] == sooner[i]->0;
                assert(names_of(answers)[k] == rest[k]);
            } else {
                assert(names_of(answers).last() == answers.last()->0);
            }
        }
        if forall|i: int| 0 <= i < answers.len() ==> (#[trigger] answers[i]) is Some {
            assert forall|i: int| 0 <= i < sooner.len() implies (#[trigger] sooner[i]) is Some by {
                assert(answers[i] is Some);
            }
            assert(answers[answers.len() - 1] is Some);
        }
    }
}

/// The lookups are those of the user ids, one each and at the same place.
pub proof fn each_lookup_is_of_its_own_user_id(uids: Seq<u32>, answers: Seq<Option<Seq<char>>>)
    ensures
        are_user_names(uids, answers) <==> {
            &&& uids.len() == answers.len()
            &&& forall|i: int|
                0 <= i < uids.len() ==> is_user_name(#[trigger] uids[i], answers[i])
        },
{
    if are_user_names(uids, answers) {
        assert forall|i: int| 0 <= i < uids.len() implies is_user_name(
            #[trigger] uids[i],
            answers[i],
        ) by {
            assert(is_user_name(uids[i], answers[i]));
        }
    } else if uids.len() == answers.len() {
        let i = choose|i: int|
            0 <= i < answers.len() && !is_user_name(uids[i], #[trigger] answers[i]);
        assert(!is_user_name(uids[i], answers[i]));
    }
}

/// The identities are refused exactly where one of kind `unix-user` comes without a user id.
pub proof fn only_a_unix_user_without_a_uid_is_refused(identities: Seq<IdentityView>)
    ensures
        !all_well_formed(identities) <==> exists|i: int|
            {
                &&& 0 <= i < identities.len()
                &&& (#[trigger] identities[i]).kind == "unix-user"@
                &&& identities[i].uid is Missing
            },
{
    if !all_well_formed(identities) {
        let i = choose|i: int|
            0 <= i < identities.len() && !(#[trigger] identities[i]).well_formed();
        assert(identities[i].kind == "unix-user"@ && identities[i].uid is Missing);
    } else {
        assert forall|i: int| 0 <= i < identities.len() implies !((
        #[trigger] identities[i]).kind == "unix-user"@ && identities[i].uid is Missing) by {
            assert(identities[i].well_formed());
        }
    }
}

/// Those who may answer are found by looking up every identity of kind `unix-user` with a user id
/// of 32 bits, each once and in order, and taking every name that is found.
pub proof fn all_unix_users_with_a_name_may_answer(
    identities: Seq<IdentityView>,
    names: Seq<Seq<char>>,
) -> (answers: Seq<Option<Seq<char>>>)
    ensures
        may_answer(identities, names) ==> ({
            let users = identities.filter(
                |identity: IdentityView| identity.kind == "unix-user"@ && identity.uid is U32,
            );
            &&& answers.len() == users.len()
            &&& forall|k: int|
                0 <= k < users.len() ==> is_user_name(users[k].uid->U32_0, #[trigger] answers[k])
            &&& names == answers.filter(|answer: Option<Seq<char>>| answer is Some).map_values(
                |answer: Option<Seq<char>>| answer->0,
            )
        }),
{
    let answers = choose|answers: Seq<Option<Seq<char>>>|
        {
            &&& are_user_names(uids_of(identities), answers)
            &&& names == #[trigger] names_of(answers)
        };
    let users = identities.filter(
        |identity: IdentityView| identity.kind == "unix-user"@ && identity.uid is U32,
    );
    every_unix_user_is_looked_up(identities);
    every_name_that_is_found_is_offered(answers);
    each_lookup_is_of_its_own_user_id(uids_of(identities), answers);
    assert forall|k: int|
        may_answer(identities, names) && 0 <= k < users.len() implies is_user_name(
        users[k].uid->U32_0,
        #[trigger] answers[k],
    ) by {
        assert(uids_of(identities)[k] == users[k].uid->U32_0);
    }
    answers
}

} // verus!
