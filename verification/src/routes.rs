//! Which request goes where.

use vstd::prelude::*;

verus! {

/// The method of an HTTP request.
#[derive(Debug, Clone, Copy, PartialEq, Eq, Structural)]
pub enum Method {
    Get,
    Post,
    Put,
    Delete,
}

/// What the service can be asked for.
#[derive(Debug, Clone, Copy, PartialEq, Eq, Structural)]
pub enum Endpoint {
    GetTaskById,
    CreateTask,
    GetAllTasks,
    UpdateTask,
    DeleteTask,
    RegisterUser,
    LoginUser,
}

impl Endpoint {
    /// The method of the requests that go here.
    pub open spec fn spec_method(self) -> Method {
        match self {
            Endpoint::GetTaskById => Method::Get,
            Endpoint::CreateTask => Method::Post,
            Endpoint::GetAllTasks => Method::Get,
            Endpoint::UpdateTask => Method::Put,
            Endpoint::DeleteTask => Method::Delete,
            Endpoint::RegisterUser => Method::Post,
            Endpoint::LoginUser => Method::Post,
        }
    }

    /// The path of the requests that go here, with `{id}` for the identifier of a task.
    pub open spec fn spec_path(self) -> Seq<char> {
        match self {
            Endpoint::GetTaskById => "/tasks/{id}"@,
            Endpoint::CreateTask => "/tasks"@,
            Endpoint::GetAllTasks => "/tasks"@,
            Endpoint::UpdateTask => "/tasks/{id}"@,
            Endpoint::DeleteTask => "/tasks/{id}"@,
            Endpoint::RegisterUser => "/register"@,
            Endpoint::LoginUser => "/login"@,
        }
    }

    /// The method of the requests that go here.
    pub fn method(self) -> (method: Method)
        ensures
            method == self.spec_method(),
            method == Method::Get <==> (self == Endpoint::GetTaskById || self
                == Endpoint::GetAllTasks),
            method == Method::Post <==> (self == Endpoint::CreateTask || self
                == Endpoint::RegisterUser || self == Endpoint::LoginUser),
            method == Method::Put <==> self == Endpoint::UpdateTask,
            method == Method::Delete <==> self == Endpoint::DeleteTask,
    {
        match self {
            Endpoint::GetTaskById => Method::Get,
            Endpoint::CreateTask => Method::Post,
            Endpoint::GetAllTasks => Method::Get,
            Endpoint::UpdateTask => Method::Put,
            Endpoint::DeleteTask => Method::Delete,
            Endpoint::RegisterUser => Method::Post,
            Endpoint::LoginUser => Method::Post,
        }
    }

    /// The path of the requests that go here, with `{id}` for the identifier of a task.
    pub fn path(self) -> (path: &'static str)
        ensures
            path@ == self.spec_path(),
            self == Endpoint::GetTaskById || self == Endpoint::UpdateTask || self
                == Endpoint::DeleteTask ==> path@ == "/tasks/{id}"@,
            self == Endpoint::CreateTask || self == Endpoint::GetAllTasks ==> path@ == "/tasks"@,
            self == Endpoint::RegisterUser ==> path@ == "/register"@,
            self == Endpoint::LoginUser ==> path@ == "/login"@,
    {
        match self {
            Endpoint::GetTaskById => "/tasks/{id}",
            Endpoint::CreateTask => "/tasks",
            Endpoint::GetAllTasks => "/tasks",
            Endpoint::UpdateTask => "/tasks/{id}",
            Endpoint::DeleteTask => "/tasks/{id}",
            Endpoint::RegisterUser => "/register",
            Endpoint::LoginUser => "/login",
        }
    }

    /// Everything that the service can be asked for.
    pub fn all() -> (all: Vec<Endpoint>)
        ensures
            all@ == seq![
                Endpoint::GetTaskById,
                Endpoint::CreateTask,
                Endpoint::GetAllTasks,
                Endpoint::UpdateTask,
                Endpoint::DeleteTask,
                Endpoint::RegisterUser,
                Endpoint::LoginUser,
            ],
            forall|endpoint: Endpoint| #[trigger] all@.contains(endpoint),
    {
        let all: Vec<Endpoint> = vec![
            Endpoint::GetTaskById,
            Endpoint::CreateTask,
            Endpoint::GetAllTasks,
            Endpoint::UpdateTask,
            Endpoint::DeleteTask,
            Endpoint::RegisterUser,
            Endpoint::LoginUser,
        ];
        proof {
            assert forall|endpoint: Endpoint| #[trigger] all@.contains(endpoint) by {
                let at: int = match endpoint {
                    Endpoint::GetTaskById => 0,
                    Endpoint::CreateTask => 1,
                    Endpoint::GetAllTasks => 2,
                    Endpoint::UpdateTask => 3,
                    Endpoint::DeleteTask => 4,
                    Endpoint::RegisterUser => 5,
                    Endpoint::LoginUser => 6,
                };
                assert(all@[at] == endpoint);
            }
        }
        all
    }
}

/// What only reads tasks is asked for with GET, what creates a task or concerns an account with
/// POST, what changes a task with PUT and what removes one with DELETE. What concerns one task has
/// its identifier in the path; what concerns them all has the same path without it.
pub proof fn routes_follow_what_they_do(endpoint: Endpoint)
    ensures
        endpoint.spec_method() == Method::Get <==> (endpoint == Endpoint::GetTaskById || endpoint
            == Endpoint::GetAllTasks),
        endpoint.spec_method() == Method::Post <==> (endpoint == Endpoint::CreateTask || endpoint
            == Endpoint::RegisterUser || endpoint == Endpoint::LoginUser),
        endpoint.spec_method() == Method::Put <==> endpoint == Endpoint::UpdateTask,
        endpoint.spec_method() == Method::Delete <==> endpoint == Endpoint::DeleteTask,
        endpoint.spec_path() == "/tasks/{id}"@ <==> (endpoint == Endpoint::GetTaskById || endpoint
            == Endpoint::UpdateTask || endpoint == Endpoint::DeleteTask),
        endpoint.spec_path() == "/tasks"@ <==> (endpoint == Endpoint::CreateTask || endpoint
            == Endpoint::GetAllTasks),
        endpoint.spec_path() == "/register"@ <==> endpoint == Endpoint::RegisterUser,
        endpoint.spec_path() == "/login"@ <==> endpoint == Endpoint::LoginUser,
{
    reveal_strlit("/tasks/{id}");
    reveal_strlit("/tasks");
    reveal_strlit("/register");
    reveal_strlit("/login");
    assert("/tasks/{id}"@.len() == 11 && "/tasks"@.len() == 6);
    assert("/register"@.len() == 9 && "/login"@.len() == 6);
    assert("/tasks"@[1] != "/login"@[1]);
}

/// A method and a path lead to one endpoint at most.
pub proof fn routes_are_unambiguous(left: Endpoint, right: Endpoint)
    requires
        left.spec_method() == right.spec_method(),
        left.spec_path() == right.spec_path(),
    ensures
        left == right,
{
    reveal_strlit("/tasks/{id}");
    reveal_strlit("/tasks");
    reveal_strlit("/register");
    reveal_strlit("/login");
    assert("/tasks/{id}"@.len() != "/tasks"@.len());
    assert("/register"@.len() != "/login"@.len());
    assert("/tasks"@[1] != "/login"@[1]);
    assert("/tasks"@.len() != "/register"@.len());
}

} // verus!
