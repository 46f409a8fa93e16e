//! What the statements mean: the tables as mathematical values, and what holds of everything
//! that is done to them.

use crate::accounts::UserView;
use crate::error::ErrorView;
use crate::json::JsonView;
use crate::store::{CommandView, RecordKind, RecordRow, SessionRow, UserRow};
use vstd::prelude::*;

verus! {

// ---------------------------------------------------------------------------------------------
// The tables
// ---------------------------------------------------------------------------------------------

/// A user, by whose name the table is ordered. Nobody comes with a login from elsewhere or a
/// second factor.
pub struct UserRecord {
    pub user_id: Seq<char>,
    pub password_hash: Seq<char>,
    pub is_admin: bool,
    pub is_oidc: bool,
    pub totp_enabled: bool,
}

/// A session, by whose token the table is ordered.
pub struct SessionRecord {
    pub user_id: Seq<char>,
    pub expires_at: int,
    pub created_at: int,
}

/// A document, by whose number the table is ordered.
pub struct Document {
    pub owner: Seq<char>,
    pub data: Seq<char>,
    pub created_at: int,
    pub updated_at: int,
}

/// The tables.
pub struct Tables {
    pub users: Map<Seq<char>, UserRecord>,
    pub sessions: Map<Seq<char>, SessionRecord>,
    pub hosts: Map<int, Document>,
    pub credentials: Map<int, Document>,
}

impl Tables {
    /// The documents of a kind.
    pub open spec fn documents(self, kind: RecordKind) -> Map<int, Document> {
        match kind {
            RecordKind::Host => self.hosts,
            RecordKind::Credential => self.credentials,
        }
    }

    /// The tables with other documents of a kind.
    pub open spec fn with_documents(self, kind: RecordKind, documents: Map<int, Document>) -> Tables {
        match kind {
            RecordKind::Host => Tables { hosts: documents, ..self },
            RecordKind::Credential => Tables { credentials: documents, ..self },
        }
    }

    /// Whether a user has a document of a kind under a number.
    pub open spec fn owns(self, user_id: Seq<char>, kind: RecordKind, id: int) -> bool {
        self.documents(kind).contains_key(id) && self.documents(kind)[id].owner == user_id
    }

    /// The document that a user finds under a number; `None` stands for any user.
    pub open spec fn find(self, kind: RecordKind, id: int, owner: Option<Seq<char>>) -> Option<
        Document,
    > {
        let documents = self.documents(kind);
        if documents.contains_key(id) && (owner matches Some(user_id) ==> documents[id].owner
            == user_id) {
            Some(documents[id])
        } else {
            None
        }
    }

    /// The numbers of the documents of a kind that a user has.
    pub open spec fn numbers(self, kind: RecordKind, user_id: Seq<char>) -> Set<int> {
        self.documents(kind).dom().filter(|id: int| self.documents(kind)[id].owner == user_id)
    }

    /// The documents of a kind that a user has, with their numbers, in increasing order.
    pub open spec fn list(self, kind: RecordKind, user_id: Seq<char>) -> Seq<(int, Document)> {
        increasing(self.numbers(kind, user_id)).map_values(
            |id: int| (id, self.documents(kind)[id]),
        )
    }

    /// Whether there is a user with a number.
    pub open spec fn knows(self, user_id: Seq<char>) -> bool {
        exists|username: Seq<char>| #[trigger]
            self.users.contains_key(username) && self.users[username].user_id == user_id
    }

    /// The tables after a statement; a new document gets the number `fresh`. A user whose name
    /// or number is taken, a session whose token is taken, a document whose number is taken,
    /// and a session or a document of an unknown user are refused, and change nothing.
    pub open spec fn after(self, command: CommandView, fresh: int) -> Tables {
        match command {
            CommandView::InsertUser { user_id, username, password_hash, is_admin } => {
                if self.users.contains_key(username) || self.knows(user_id) {
                    self
                } else {
                    let user = UserRecord {
                        user_id,
                        password_hash,
                        is_admin,
                        is_oidc: false,
                        totp_enabled: false,
                    };
                    Tables { users: self.users.insert(username, user), ..self }
                }
            },
            CommandView::InsertSession { token, user_id, expires_at, created_at } => {
                if self.sessions.contains_key(token) || !self.knows(user_id) {
                    self
                } else {
                    let session = SessionRecord { user_id, expires_at, created_at };
                    Tables { sessions: self.sessions.insert(token, session), ..self }
                }
            },
            CommandView::InsertRecord { kind, user_id, data, created_at, updated_at } => {
                if self.documents(kind).contains_key(fresh) || !self.knows(user_id) {
                    self
                } else {
                    let document = Document { owner: user_id, data, created_at, updated_at };
                    self.with_documents(kind, self.documents(kind).insert(fresh, document))
                }
            },
            CommandView::UpdateRecord { kind, id, user_id, data, updated_at } => if self.owns(
                user_id,
                kind,
                id,
            ) {
                self.with_documents(
                    kind,
                    self.documents(kind).insert(
                        id,
                        Document { data, updated_at, ..self.documents(kind)[id] },
                    ),
                )
            } else {
                self
            },
            CommandView::DeleteRecord { kind, id, user_id } => if self.owns(user_id, kind, id) {
                self.with_documents(kind, self.documents(kind).remove(id))
            } else {
                self
            },
            _ => self,
        }
    }

    /// The session under a token with its user, as a row holds them: the number, the name and
    /// the rights of the user, and the end of the session.
    pub open spec fn row_holds_session(self, token: Seq<char>, row: SessionRow) -> bool {
        &&& self.sessions.contains_key(token)
        &&& self.users.contains_key(row.username@)
        &&& self.users[row.username@].user_id == self.sessions[token].user_id
        &&& row.user_id@ == self.sessions[token].user_id
        &&& row.expires_at == self.sessions[token].expires_at
        &&& (row.is_admin != 0) == self.users[row.username@].is_admin
        &&& (row.is_oidc != 0) == self.users[row.username@].is_oidc
        &&& (row.totp_enabled != 0) == self.users[row.username@].totp_enabled
    }

    /// The keys of the tables: every number belongs to one user, and every session and every
    /// document to a user that there is. The tables are finite.
    pub open spec fn sound(self) -> bool {
        &&& self.users.dom().finite() && self.hosts.dom().finite()
            && self.credentials.dom().finite()
        &&& forall|a: Seq<char>, b: Seq<char>|
            #![trigger self.users.contains_key(a), self.users.contains_key(b)]
            self.users.contains_key(a) && self.users.contains_key(b) && self.users[a].user_id
                == self.users[b].user_id ==> a == b
        &&& forall|token: Seq<char>| #[trigger]
            self.sessions.contains_key(token) ==> self.knows(self.sessions[token].user_id)
        &&& forall|id: int| #[trigger]
            self.hosts.contains_key(id) ==> self.knows(self.hosts[id].owner)
        &&& forall|id: int| #[trigger]
            self.credentials.contains_key(id) ==> self.knows(self.credentials[id].owner)
    }
}

/// Whether a number is the greatest of some.
pub open spec fn greatest(numbers: Set<int>, n: int) -> bool {
    numbers.contains(n) && forall|m: int| numbers.contains(m) ==> m <= n
}

/// Finitely many numbers in increasing order.
pub open spec fn increasing(numbers: Set<int>) -> Seq<int>
    decreases numbers.len(),
{
    if numbers.finite() && exists|n: int| greatest(numbers, n) {
        let n = choose|n: int| greatest(numbers, n);
        increasing(numbers.remove(n)).push(n)
    } else {
        Seq::empty()
    }
}

/// Among finitely many numbers, one is the greatest.
proof fn lemma_greatest(numbers: Set<int>)
    requires
        numbers.finite(),
        !numbers.is_empty(),
    ensures
        exists|n: int| greatest(numbers, n),
    decreases numbers.len(),
{
    let some = numbers.choose();
    let rest = numbers.remove(some);
    if rest.is_empty() {
        assert(greatest(numbers, some)) by {
            assert forall|m: int| numbers.contains(m) implies m <= some by {
                if m != some {
                    assert(rest.contains(m));
                }
            }
        }
    } else {
        lemma_greatest(rest);
        let n = choose|n: int| greatest(rest, n);
        let top = if some > n {
            some
        } else {
            n
        };
        assert(greatest(numbers, top)) by {
            assert forall|m: int| numbers.contains(m) implies m <= top by {
                if m != some {
                    assert(rest.contains(m));
                }
            }
        }
    }
}

/// Numbers in increasing order are those numbers, each once, and the smaller before the greater.
proof fn lemma_increasing(numbers: Set<int>)
    requires
        numbers.finite(),
    ensures
        forall|n: int| increasing(numbers).contains(n) <==> numbers.contains(n),
        forall|i: int, j: int|
            0 <= i < j < increasing(numbers).len() ==> #[trigger] increasing(numbers)[i]
                < #[trigger] increasing(numbers)[j],
    decreases numbers.len(),
{
    if numbers.is_empty() {
        assert forall|n: int| !greatest(numbers, n) by {}
    } else {
        lemma_greatest(numbers);
        let n = choose|n: int| greatest(numbers, n);
        let rest = numbers.remove(n);
        lemma_increasing(rest);
        let head = increasing(rest);
        let all = increasing(numbers);
        assert(all == head.push(n));
        assert forall|m: int| all.contains(m) <==> numbers.contains(m) by {
            if all.contains(m) {
                let i = choose|i: int| 0 <= i < all.len() && all[i] == m;
                if i < head.len() {
                    assert(head[i] == m);
                    assert(head.contains(m));
                }
            }
            if numbers.contains(m) {
                if m == n {
                    assert(all[head.len() as int] == m);
                } else {
                    assert(rest.contains(m));
                    let i = choose|i: int| 0 <= i < head.len() && head[i] == m;
                    assert(all[i] == m);
                }
            }
        }
        assert forall|i: int, j: int| 0 <= i < j < all.len() implies #[trigger] all[i]
            < #[trigger] all[j] by {
            if j == head.len() {
                assert(head.contains(head[i]));
                assert(numbers.contains(head[i]));
            }
        }
    }
}

/// Whether a row holds a document.
pub open spec fn row_holds(row: RecordRow, id: int, document: Document) -> bool {
    row.id == id && row.data@ == document.data && row.created_at == document.created_at
        && row.updated_at == document.updated_at
}

/// Whether a row holds a user.
pub open spec fn row_holds_user(row: UserRow, username: Seq<char>, user: UserRecord) -> bool {
    row.id@ == user.user_id && row.username@ == username && row.password_hash@
        == user.password_hash && (row.is_admin != 0) == user.is_admin && (row.is_oidc != 0)
        == user.is_oidc && (row.totp_enabled != 0) == user.totp_enabled
}

/// Whether rows hold documents with their numbers, one by one.
pub open spec fn rows_hold(rows: Seq<RecordRow>, list: Seq<(int, Document)>) -> bool {
    rows.len() == list.len() && forall|i: int|
        0 <= i < list.len() ==> row_holds(#[trigger] rows[i], list[i].0, list[i].1)
}

// ---------------------------------------------------------------------------------------------
// Laws: documents
// ---------------------------------------------------------------------------------------------

/// A new document is found by its owner, and by nobody else.
pub proof fn new_documents_are_their_owners(
    tables: Tables,
    kind: RecordKind,
    user: UserView,
    other: Seq<char>,
    data: Seq<char>,
    now: int,
    fresh: int,
)
    requires
        other != user.user_id,
        tables.knows(user.user_id),
        !tables.documents(kind).contains_key(fresh),
    ensures
        ({
            let after = tables.after(
                crate::documents::insert_command(kind, user, data, now),
                fresh,
            );
            &&& after.find(kind, fresh, Some(user.user_id)) == Some(
                Document { owner: user.user_id, data, created_at: now, updated_at: now },
            )
            &&& after.find(kind, fresh, Some(other)) is None
        }),
{
}

/// A statement that is confined to a user leaves the documents of everybody else as they are.
pub proof fn confined_statements_leave_others_alone(
    tables: Tables,
    command: CommandView,
    user_id: Seq<char>,
    fresh: int,
    kind: RecordKind,
    id: int,
)
    requires
        command.confined_to(user_id),
        tables.documents(kind).contains_key(id),
        tables.documents(kind)[id].owner != user_id,
    ensures
        tables.after(command, fresh).documents(kind).contains_key(id),
        tables.after(command, fresh).documents(kind)[id] == tables.documents(kind)[id],
{
}

/// A statement on documents of one kind leaves those of the other kind as they are, and the
/// users and the sessions too.
pub proof fn statements_keep_to_their_kind(tables: Tables, command: CommandView, fresh: int)
    requires
        command.on_records(),
    ensures
        tables.after(command, fresh).users == tables.users,
        tables.after(command, fresh).sessions == tables.sessions,
        tables.after(command, fresh).hosts == tables.hosts || tables.after(command, fresh).credentials
            == tables.credentials,
{
}

/// Looking things up changes nothing.
pub proof fn looking_changes_nothing(
    tables: Tables,
    kind: RecordKind,
    id: int,
    user: UserView,
    fresh: int,
)
    ensures
        tables.after(crate::documents::list_command(kind, user), fresh) == tables,
        tables.after(crate::documents::find_command(kind, id, user), fresh) == tables,
{
}

/// A document that its owner deletes is gone, and deleting it again changes nothing.
pub proof fn deleted_documents_are_gone(
    tables: Tables,
    kind: RecordKind,
    id: int,
    user: UserView,
    fresh: int,
)
    requires
        tables.owns(user.user_id, kind, id),
    ensures
        ({
            let delete = crate::documents::delete_command(kind, id, user);
            let after = tables.after(delete, fresh);
            after.find(kind, id, None) is None && after.after(delete, fresh) == after
        }),
{
}

/// A document that its owner updates keeps its owner and the time of its creation.
pub proof fn updated_documents_keep_their_origin(
    tables: Tables,
    kind: RecordKind,
    id: int,
    user: UserView,
    data: Seq<char>,
    now: int,
    fresh: int,
)
    requires
        tables.owns(user.user_id, kind, id),
    ensures
        tables.after(crate::documents::update_command(kind, id, user, data, now), fresh).find(
            kind,
            id,
            Some(user.user_id),
        ) == Some(
            Document {
                owner: user.user_id,
                data,
                created_at: tables.documents(kind)[id].created_at,
                updated_at: now,
            },
        ),
{
}

/// What a user creates, the user gets: a host that was created under a number is found there
/// and shown as it was when it was created, alone and in a list.
pub proof fn created_hosts_come_back(
    tables: Tables,
    user: UserView,
    payload: JsonView,
    now: int,
    fresh: int,
    row: RecordRow,
)
    requires
        tables.knows(user.user_id),
        !tables.hosts.contains_key(fresh),
        crate::hosts::valid_host(payload),
        crate::json_text::stored_tree(crate::json_text::printed_json(payload)) == payload,
        ({
            let created = crate::hosts::host_creation(Ok(user), payload, now);
            let found = tables.after(created->Ok_0.1, fresh).find(
                RecordKind::Host,
                fresh,
                Some(user.user_id),
            );
            found matches Some(document) && row_holds(row, fresh, document)
        }),
    ensures
        crate::hosts::host_outcome(Ok(Some(row)), fresh, user.user_id) == Ok::<JsonView, ErrorView>(
            crate::hosts::host_body(fresh, user.user_id, payload, now, now),
        ),
        crate::hosts::row_body(row, user.user_id) == crate::hosts::host_body(
            fresh,
            user.user_id,
            payload,
            now,
            now,
        ),
{
}

/// What a user updates, the user gets: a host that was updated is found with the merged payload.
pub proof fn updated_hosts_come_back(
    tables: Tables,
    user: UserView,
    id: int,
    before: RecordRow,
    payload: JsonView,
    now: int,
    fresh: int,
    row: RecordRow,
)
    requires
        tables.owns(user.user_id, RecordKind::Host, id),
        row_holds(before, id, tables.hosts[id]),
        crate::hosts::host_update(Ok(Some(before)), id, user, payload, now) is Ok,
        ({
            let updated = crate::hosts::host_update(Ok(Some(before)), id, user, payload, now)->Ok_0;
            let found = tables.after(updated.1, fresh).find(
                RecordKind::Host,
                id,
                Some(user.user_id),
            );
            &&& crate::json_text::stored_tree(crate::json_text::printed_json(updated.0))
                == updated.0
            &&& found matches Some(document) && row_holds(row, id, document)
        }),
    ensures
        crate::hosts::host_outcome(Ok(Some(row)), id, user.user_id) == Ok::<JsonView, ErrorView>(
            crate::hosts::host_body(
                id,
                user.user_id,
                crate::hosts::merged_host(
                    payload,
                    crate::json_text::stored_tree(before.data@),
                ),
                before.created_at as int,
                now,
            ),
        ),
{
}

/// What a user creates, the user gets: a credential that was created under a number is found
/// there and shown as it was when it was created, alone and in a list, and gives for logging in
/// what its payload gave.
pub proof fn created_credentials_come_back(
    tables: Tables,
    user: UserView,
    payload: JsonView,
    now: int,
    fresh: int,
    row: RecordRow,
)
    requires
        tables.knows(user.user_id),
        !tables.credentials.contains_key(fresh),
        crate::credentials::valid_credential(payload),
        crate::json_text::stored_tree(crate::json_text::printed_json(payload)) == payload,
        ({
            let created = crate::credentials::credential_creation(Ok(user), payload, now);
            let found = tables.after(created->Ok_0.1, fresh).find(
                RecordKind::Credential,
                fresh,
                Some(user.user_id),
            );
            found matches Some(document) && row_holds(row, fresh, document)
        }),
    ensures
        crate::credentials::credential_reply_outcome(Ok(Some(row)), fresh, user.user_id) == Ok::<
            JsonView,
            ErrorView,
        >(crate::credentials::credential_body(fresh, user.user_id, payload, now, now)),
        crate::credentials::row_body(row, user.user_id) == crate::credentials::credential_body(
            fresh,
            user.user_id,
            payload,
            now,
            now,
        ),
        crate::credentials::credential_outcome(Ok(Some(row))) == Ok::<
            crate::credentials::CredentialView,
            Seq<char>,
        >(crate::credentials::auth_of(payload)),
{
}

/// What a user updates, the user gets: a credential that was updated is found with the merged
/// payload, and gives for logging in what that gives.
pub proof fn updated_credentials_come_back(
    tables: Tables,
    user: UserView,
    id: int,
    before: RecordRow,
    payload: JsonView,
    now: int,
    fresh: int,
    row: RecordRow,
)
    requires
        tables.owns(user.user_id, RecordKind::Credential, id),
        row_holds(before, id, tables.credentials[id]),
        crate::credentials::valid_credential(payload),
        ({
            let updated = crate::credentials::credential_update(
                Ok(Some(before)),
                id,
                user,
                payload,
                now,
            )->Ok_0;
            let found = tables.after(updated.1, fresh).find(
                RecordKind::Credential,
                id,
                Some(user.user_id),
            );
            &&& crate::json_text::stored_tree(crate::json_text::printed_json(updated.0))
                == updated.0
            &&& found matches Some(document) && row_holds(row, id, document)
        }),
    ensures
        ({
            let merged = crate::credentials::merged_credential(
                payload,
                crate::json_text::stored_tree(before.data@),
            );
            &&& crate::credentials::credential_reply_outcome(Ok(Some(row)), id, user.user_id)
                == Ok::<JsonView, ErrorView>(
                crate::credentials::credential_body(
                    id,
                    user.user_id,
                    merged,
                    before.created_at as int,
                    now,
                ),
            )
            &&& crate::credentials::credential_outcome(Ok(Some(row))) == Ok::<
                crate::credentials::CredentialView,
                Seq<char>,
            >(crate::credentials::auth_of(merged))
        }),
{
    crate::credentials::updating_keeps_valid(
        payload,
        crate::json_text::stored_tree(before.data@),
    );
}

// ---------------------------------------------------------------------------------------------
// Laws: lists
// ---------------------------------------------------------------------------------------------

/// A list holds the documents of its user and no others, each once, in the order of their
/// numbers.
pub proof fn lists_hold_what_is_owned(tables: Tables, kind: RecordKind, user_id: Seq<char>)
    requires
        tables.documents(kind).dom().finite(),
    ensures
        forall|i: int|
            0 <= i < tables.list(kind, user_id).len() ==> {
                let (id, document) = #[trigger] tables.list(kind, user_id)[i];
                tables.owns(user_id, kind, id) && document == tables.documents(kind)[id]
            },
        forall|id: int|
            tables.owns(user_id, kind, id) ==> exists|i: int|
                0 <= i < tables.list(kind, user_id).len() && #[trigger] tables.list(
                    kind,
                    user_id,
                )[i].0 == id,
        forall|i: int, j: int|
            0 <= i < j < tables.list(kind, user_id).len() ==> (#[trigger] tables.list(
                kind,
                user_id,
            )[i]).0 < (#[trigger] tables.list(kind, user_id)[j]).0,
{
    let numbers = tables.numbers(kind, user_id);
    let ids = increasing(numbers);
    let list = tables.list(kind, user_id);
    lemma_increasing(numbers);
    assert forall|i: int| 0 <= i < list.len() implies {
        let (id, document) = #[trigger] list[i];
        tables.owns(user_id, kind, id) && document == tables.documents(kind)[id]
    } by {
        assert(ids.contains(ids[i]));
        assert(numbers.contains(ids[i]));
        assert(list[i] == (ids[i], tables.documents(kind)[ids[i]]));
    }
    assert forall|id: int| tables.owns(user_id, kind, id) implies exists|i: int|
        0 <= i < list.len() && #[trigger] list[i].0 == id by {
        assert(numbers.contains(id));
        let i = choose|i: int| 0 <= i < ids.len() && ids[i] == id;
        assert(list[i].0 == id);
    }
}

/// A list of hosts shows exactly the hosts of its user, in the order of their numbers.
pub proof fn listed_hosts_are_those_of_the_user(
    tables: Tables,
    user: UserView,
    rows: Vec<RecordRow>,
)
    requires
        rows_hold(rows@, tables.list(RecordKind::Host, user.user_id)),
    ensures
        crate::hosts::hosts_outcome(Ok(rows), user.user_id) == Ok::<JsonView, ErrorView>(
            JsonView::Array(
                tables.list(RecordKind::Host, user.user_id).map_values(
                    |entry: (int, Document)|
                        crate::hosts::host_body(
                            entry.0,
                            user.user_id,
                            crate::json_text::stored_tree(entry.1.data),
                            entry.1.created_at,
                            entry.1.updated_at,
                        ),
                ),
            ),
        ),
{
    let list = tables.list(RecordKind::Host, user.user_id);
    let expected = list.map_values(
        |entry: (int, Document)|
            crate::hosts::host_body(
                entry.0,
                user.user_id,
                crate::json_text::stored_tree(entry.1.data),
                entry.1.created_at,
                entry.1.updated_at,
            ),
    );
    let shown = rows@.map_values(|row: RecordRow| crate::hosts::row_body(row, user.user_id));
    assert forall|i: int| 0 <= i < list.len() implies shown[i] == expected[i] by {
        assert(row_holds(rows@[i], list[i].0, list[i].1));
    }
    assert(shown =~= expected);
}

/// A list of credentials shows exactly the credentials of its user, in the order of their
/// numbers.
pub proof fn listed_credentials_are_those_of_the_user(
    tables: Tables,
    user: UserView,
    rows: Vec<RecordRow>,
)
    requires
        rows_hold(rows@, tables.list(RecordKind::Credential, user.user_id)),
    ensures
        crate::credentials::credentials_outcome(Ok(rows), user.user_id) == Ok::<
            JsonView,
            ErrorView,
        >(
            JsonView::Array(
                tables.list(RecordKind::Credential, user.user_id).map_values(
                    |entry: (int, Document)|
                        crate::credentials::credential_body(
                            entry.0,
                            user.user_id,
                            crate::json_text::stored_tree(entry.1.data),
                            entry.1.created_at,
                            entry.1.updated_at,
                        ),
                ),
            ),
        ),
{
    let list = tables.list(RecordKind::Credential, user.user_id);
    let expected = list.map_values(
        |entry: (int, Document)|
            crate::credentials::credential_body(
                entry.0,
                user.user_id,
                crate::json_text::stored_tree(entry.1.data),
                entry.1.created_at,
                entry.1.updated_at,
            ),
    );
    let shown = rows@.map_values(
        |row: RecordRow| crate::credentials::row_body(row, user.user_id),
    );
    assert forall|i: int| 0 <= i < list.len() implies shown[i] == expected[i] by {
        assert(row_holds(rows@[i], list[i].0, list[i].1));
    }
    assert(shown =~= expected);
}

/// The statuses of a user are those of its hosts: there is one under the number of every host
/// that the user has, and none under another.
pub proof fn statuses_are_those_of_the_user(
    tables: Tables,
    user: UserView,
    checks: Seq<crate::hosts::StatusCheck>,
)
    requires
        tables.hosts.dom().finite(),
        checks.len() == tables.list(RecordKind::Host, user.user_id).len(),
        forall|i: int|
            0 <= i < checks.len() ==> (#[trigger] checks[i]).id == tables.list(
                RecordKind::Host,
                user.user_id,
            )[i].0,
    ensures
        forall|id: int|
            crate::hosts::statuses(checks).contains_key(#[trigger] crate::text::decimal(id))
                <==> tables.owns(user.user_id, RecordKind::Host, id),
{
    let list = tables.list(RecordKind::Host, user.user_id);
    lists_hold_what_is_owned(tables, RecordKind::Host, user.user_id);
    assert forall|i: int, j: int| 0 <= i < j < checks.len() implies (#[trigger] checks[i]).id != (
    #[trigger] checks[j]).id by {
        assert(list[i].0 < list[j].0);
    }
    crate::hosts::every_host_has_its_status(checks);
    assert forall|id: int|
        crate::hosts::statuses(checks).contains_key(#[trigger] crate::text::decimal(id))
            <==> tables.owns(user.user_id, RecordKind::Host, id) by {
        let key = crate::text::decimal(id);
        if crate::hosts::statuses(checks).contains_key(key) {
            let i = choose|i: int|
                0 <= i < checks.len() && key == crate::text::decimal(
                    (#[trigger] checks[i]).id as int,
                );
            crate::text::decimals_tell_numbers_apart(id, checks[i].id as int);
            assert(tables.owns(user.user_id, RecordKind::Host, list[i].0));
        }
        if tables.owns(user.user_id, RecordKind::Host, id) {
            let i = choose|i: int| 0 <= i < list.len() && #[trigger] list[i].0 == id;
            assert(checks[i].id == id);
        }
    }
}

// ---------------------------------------------------------------------------------------------
// Laws: users and sessions
// ---------------------------------------------------------------------------------------------

/// Whether there is one administrator where there are users at all.
pub open spec fn one_administrator(tables: Tables) -> bool {
    &&& forall|a: Seq<char>, b: Seq<char>|
        #![trigger tables.users.contains_key(a), tables.users.contains_key(b)]
        tables.users.contains_key(a) && tables.users.contains_key(b) && tables.users[a].is_admin
            && tables.users[b].is_admin ==> a == b
    &&& tables.users.dom().len() > 0 ==> exists|a: Seq<char>| #[trigger]
        tables.users.contains_key(a) && tables.users[a].is_admin
}

/// The first user is the administrator, and there never is another: every new user whose rights
/// go by the number of users keeps it so.
pub proof fn there_is_one_administrator(
    tables: Tables,
    user_id: Seq<char>,
    username: Seq<char>,
    password_hash: Seq<char>,
    is_admin: bool,
    fresh: int,
)
    requires
        tables.users.dom().finite(),
        one_administrator(tables),
        is_admin == (tables.users.dom().len() == 0),
    ensures
        ({
            let after = tables.after(
                CommandView::InsertUser { user_id, username, password_hash, is_admin },
                fresh,
            );
            one_administrator(after) && after.users.dom().finite()
        }),
{
    let after = tables.after(
        CommandView::InsertUser { user_id, username, password_hash, is_admin },
        fresh,
    );
    if !tables.users.contains_key(username) {
        if is_admin {
            assert(tables.users.dom() =~= Set::empty());
            assert(after.users.contains_key(username));
        } else {
            let admin = choose|a: Seq<char>| #[trigger]
                tables.users.contains_key(a) && tables.users[a].is_admin;
            assert(tables.users.contains_key(admin));
            assert(after.users.contains_key(admin));
        }
    }
}

/// Whoever enrolls when there are no users yet is the administrator, and nobody who enrolls
/// later is: where new users get their rights by the number of users, there is one administrator.
pub proof fn enrolling_keeps_one_administrator(
    tables: Tables,
    user_id: Seq<char>,
    username: Seq<char>,
    password_hash: Seq<char>,
    count: int,
    fresh: int,
)
    requires
        tables.users.dom().finite(),
        one_administrator(tables),
        count == tables.users.dom().len(),
    ensures
        ({
            let is_admin = crate::accounts::becomes_admin(count);
            let after = tables.after(
                CommandView::InsertUser { user_id, username, password_hash, is_admin },
                fresh,
            );
            one_administrator(after) && after.users.dom().finite()
        }),
        forall|n: int| #[trigger] crate::accounts::becomes_admin(n) <==> n == 0,
{
    there_is_one_administrator(
        tables,
        user_id,
        username,
        password_hash,
        crate::accounts::becomes_admin(count),
        fresh,
    );
}

/// Every statement keeps the keys of the tables.
pub proof fn statements_keep_the_keys(tables: Tables, command: CommandView, fresh: int)
    requires
        tables.sound(),
    ensures
        tables.after(command, fresh).sound(),
{
    let after = tables.after(command, fresh);
    assert forall|user_id: Seq<char>| tables.knows(user_id) implies after.knows(user_id) by {
        let username = choose|username: Seq<char>| #[trigger]
            tables.users.contains_key(username) && tables.users[username].user_id == user_id;
        assert(after.users.contains_key(username));
    }
}

/// What is taken stays as it is: a user under a name or a number that is taken, a session under
/// a token that is taken, and what would belong to an unknown user change nothing.
pub proof fn taken_keys_are_refused(tables: Tables, command: CommandView, fresh: int)
    requires
        match command {
            CommandView::InsertUser { user_id, username, .. } => tables.users.contains_key(username)
                || tables.knows(user_id),
            CommandView::InsertSession { token, user_id, .. } => tables.sessions.contains_key(token)
                || !tables.knows(user_id),
            CommandView::InsertRecord { user_id, .. } => !tables.knows(user_id),
            _ => false,
        },
    ensures
        tables.after(command, fresh) == tables,
{
}

/// Whoever logs in is known by the token of the login, with name and rights, until the session
/// ends, and not after.
pub proof fn logins_last_until_they_expire(
    tables: Tables,
    remember_me: Option<bool>,
    user: UserRow,
    token: Seq<char>,
    now: int,
    fresh: int,
    row: SessionRow,
    later: int,
)
    requires
        tables.sound(),
        !tables.sessions.contains_key(token),
        tables.users.contains_key(user.username@),
        row_holds_user(user, user.username@, tables.users[user.username@]),
        tables.after(
            crate::accounts::granted_login(remember_me, user, token, now).session,
            fresh,
        ).row_holds_session(token, row),
    ensures
        crate::sessions::session_outcome(Ok(Some(row)), later) == if later < now
            + crate::accounts::session_length(remember_me) {
            Ok::<UserView, ErrorView>(
                UserView {
                    user_id: user.id@,
                    username: user.username@,
                    is_admin: user.is_admin != 0,
                    is_oidc: user.is_oidc != 0,
                    totp_enabled: user.totp_enabled != 0,
                    data_unlocked: true,
                },
            )
        } else {
            Err(crate::error::unauthorized("Invalid token"@))
        },
{
    assert(tables.knows(user.id@));
}

/// A login leaves the other sessions as they are.
pub proof fn logins_leave_other_sessions_alone(
    tables: Tables,
    remember_me: Option<bool>,
    user: UserRow,
    token: Seq<char>,
    now: int,
    fresh: int,
    other: Seq<char>,
)
    requires
        other != token,
    ensures
        ({
            let after = tables.after(
                crate::accounts::granted_login(remember_me, user, token, now).session,
                fresh,
            );
            &&& after.sessions.contains_key(other) == tables.sessions.contains_key(other)
            &&& tables.sessions.contains_key(other) ==> after.sessions[other]
                == tables.sessions[other]
            &&& after.users == tables.users
        }),
{
}

/// Whoever was created can log in, under the name as it was given: the login looks for the name
/// that was stored, and the password fits the hash that was stored.
pub proof fn created_users_can_log_in(
    tables: Tables,
    username: Seq<char>,
    password: Seq<char>,
    user_id: Seq<char>,
    password_hash: Seq<char>,
    is_admin: bool,
    fresh: int,
    row: UserRow,
    remember_me: Option<bool>,
    token: Seq<char>,
    now: int,
)
    requires
        crate::accounts::password_fits(password, password_hash),
        !tables.users.contains_key(crate::text::trimmed(username)),
        ({
            let name = crate::text::trimmed(username);
            let after = tables.after(
                CommandView::InsertUser { user_id, username: name, password_hash, is_admin },
                fresh,
            );
            after.users.contains_key(name) && row_holds_user(row, name, after.users[name])
        }),
    ensures
        crate::text::trimmed(username) == row.username@,
        crate::text::trimmed(row.username@) == row.username@,
        crate::accounts::login_outcome(
            remember_me,
            Ok(Some(row)),
            crate::accounts::login_check(password, Ok(Some(row))),
            token,
            now,
        ) == Ok::<crate::accounts::GrantView, ErrorView>(
            crate::accounts::granted_login(remember_me, row, token, now),
        ),
{
    crate::text::trimming_settles(username);
}

} // verus!
