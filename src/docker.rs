//! Requests about Docker, answered from templates.

use vstd::prelude::*;
use vstd::string::*;
use crate::text::{chars_of, char_views, concat2, concat3, contains, lower_of, lowercase};
use crate::plugin::{CommandResult, Plugin, mentions, proposal, suggest, word_after, word_after_exec};

verus! {

/// Proposes Docker commands.
pub struct DockerPlugin;

/// The image named in a request: the word after `image`, `from`, `called` or `named`.
pub open spec fn image_name(input: Seq<char>) -> Option<Seq<char>> {
    word_after(input, seq!["image"@, "from"@, "called"@, "named"@], seq!['.', '_', ':', '/'])
}

/// The container named in a request: the word after `container`, `named`, `called` or `id`.
pub open spec fn container_name(input: Seq<char>) -> Option<Seq<char>> {
    word_after(input, seq!["container"@, "named"@, "called"@, "id"@], seq!['.', '_', '-'])
}

/// The tag named in a request: the word after `tag`, `as`, `name` or `named`.
pub open spec fn tag_name(input: Seq<char>) -> Option<Seq<char>> {
    word_after(input, seq!["tag"@, "as"@, "name"@, "named"@], seq!['.', '_', ':', '/'])
}

/// Whether a request is about Docker.
pub open spec fn docker_handles(input: Seq<char>) -> bool {
    let l = lower_of(input);
    contains(l, "docker"@) || contains(l, "container"@) || contains(l, "image"@) || contains(
        l,
        "volume"@,
    ) || contains(l, "compose"@)
}

/// The Docker command and explanation proposed for a request it handles.
pub open spec fn docker_response(input: Seq<char>) -> (Seq<char>, Seq<char>) {
    let l = lower_of(input);
    let container = contains(l, "container"@);
    let image = contains(l, "image"@);
    let removing = contains(l, "remove"@) || contains(l, "delete"@);
    if contains(l, "list"@) && (container || contains(l, "all container"@)) {
        if contains(l, "all"@) {
            ("docker ps -a"@, "Lists all containers, including stopped ones."@)
        } else {
            ("docker ps"@, "Lists running containers."@)
        }
    } else if contains(l, "list"@) && image {
        ("docker images"@, "Lists all available Docker images."@)
    } else if contains(l, "pull"@) && image {
        match image_name(input) {
            Some(i) => ("docker pull "@ + i, "Pulls the Docker image '"@ + i + "'."@),
            None => (
                "docker pull "@,
                "Pulls a Docker image. You'll need to specify the image name."@,
            ),
        }
    } else if (contains(l, "run"@) || contains(l, "start"@)) && (container || image) {
        match image_name(input) {
            Some(i) => ("docker run "@ + i, "Runs a container from the '"@ + i + "' image."@),
            None => (
                "docker run "@,
                "Runs a Docker container. You'll need to specify the image name."@,
            ),
        }
    } else if contains(l, "stop"@) && container {
        match container_name(input) {
            Some(c) => ("docker stop "@ + c, "Stops the running container '"@ + c + "'."@),
            None => (
                "docker stop "@,
                "Stops a running container. You'll need to specify the container ID or name."@,
            ),
        }
    } else if removing && container {
        match container_name(input) {
            Some(c) => ("docker rm "@ + c, "Removes the container '"@ + c + "'."@),
            None => (
                "docker rm "@,
                "Removes a container. You'll need to specify the container ID or name."@,
            ),
        }
    } else if removing && image {
        match image_name(input) {
            Some(i) => ("docker rmi "@ + i, "Removes the image '"@ + i + "'."@),
            None => (
                "docker rmi "@,
                "Removes a Docker image. You'll need to specify the image ID or name."@,
            ),
        }
    } else if contains(l, "compose"@) && contains(l, "up"@) {
        ("docker-compose up"@, "Starts all services defined in docker-compose.yml."@)
    } else if contains(l, "compose"@) && contains(l, "down"@) {
        ("docker-compose down"@, "Stops and removes all services defined in docker-compose.yml."@)
    } else if contains(l, "build"@) && image {
        match tag_name(input) {
            Some(t) => ("docker build -t "@ + t + " ."@, "Builds a Docker image with the tag '"@ + t
                + "'."@),
            None => ("docker build -t "@, "Builds a Docker image. You'll need to specify a tag."@),
        }
    } else {
        (
            "docker "@,
            "Docker is a platform for developing, shipping, and running applications in containers."@,
        )
    }
}

fn extract_image_name(input: &str) -> (r: Option<String>)
    ensures
        match r {
            Some(w) => image_name(input@) == Some(w@),
            None => image_name(input@) is None,
        },
{
    let keys = vec![chars_of("image"), chars_of("from"), chars_of("called"), chars_of("named")];
    assert(char_views(keys@) =~= seq!["image"@, "from"@, "called"@, "named"@]);
    let keep = vec!['.', '_', ':', '/'];
    word_after_exec(input, &keys, &keep)
}

fn extract_container_name(input: &str) -> (r: Option<String>)
    ensures
        match r {
            Some(w) => container_name(input@) == Some(w@),
            None => container_name(input@) is None,
        },
{
    let keys = vec![chars_of("container"), chars_of("named"), chars_of("called"), chars_of("id")];
    assert(char_views(keys@) =~= seq!["container"@, "named"@, "called"@, "id"@]);
    let keep = vec!['.', '_', '-'];
    word_after_exec(input, &keys, &keep)
}

fn extract_tag(input: &str) -> (r: Option<String>)
    ensures
        match r {
            Some(w) => tag_name(input@) == Some(w@),
            None => tag_name(input@) is None,
        },
{
    let keys = vec![chars_of("tag"), chars_of("as"), chars_of("name"), chars_of("named")];
    assert(char_views(keys@) =~= seq!["tag"@, "as"@, "name"@, "named"@]);
    let keep = vec!['.', '_', ':', '/'];
    word_after_exec(input, &keys, &keep)
}

fn say(command: &str, explanation: &str) -> (r: Option<CommandResult>)
    ensures
        proposal(r) == Some((command@, explanation@)),
{
    Some(suggest(String::from_str(command), String::from_str(explanation)))
}

fn say_with(command: &str, word: &str, before: &str, after: &str) -> (r: Option<CommandResult>)
    ensures
        proposal(r) == Some((command@ + word@, before@ + word@ + after@)),
{
    Some(suggest(concat2(command, word), concat3(before, word, after)))
}

impl DockerPlugin {
    pub fn new() -> (r: Self) {
        DockerPlugin
    }
}

impl Default for DockerPlugin {
    fn default() -> (r: Self) {
        DockerPlugin
    }
}

impl Plugin for DockerPlugin {
    open spec fn spec_name(&self) -> Seq<char> {
        "docker"@
    }

    open spec fn spec_description(&self) -> Seq<char> {
        "Provides Docker command functionality"@
    }

    open spec fn handles(&self, input: Seq<char>) -> bool {
        docker_handles(input)
    }

    open spec fn response(&self, input: Seq<char>) -> Option<(Seq<char>, Seq<char>)> {
        if docker_handles(input) {
            Some(docker_response(input))
        } else {
            None
        }
    }

    fn name(&self) -> (r: &str) {
        "docker"
    }

    fn description(&self) -> (r: &str) {
        "Provides Docker command functionality"
    }

    fn can_handle(&self, input: &str) -> (r: bool) {
        let lower = lowercase(input);
        let l = chars_of(lower.as_str());
        mentions(&l, "docker") || mentions(&l, "container") || mentions(&l, "image") || mentions(
            &l,
            "volume",
        ) || mentions(&l, "compose")
    }

    #[verifier::rlimit(50)]
    fn handle(&self, input: &str) -> (r: Option<CommandResult>) {
        if !self.can_handle(input) {
            return None;
        }
        let lower = lowercase(input);
        let l = chars_of(lower.as_str());
        let container = mentions(&l, "container");
        let image = mentions(&l, "image");
        let removing = mentions(&l, "remove") || mentions(&l, "delete");
        if mentions(&l, "list") && (container || mentions(&l, "all container")) {
            if mentions(&l, "all") {
                return say("docker ps -a", "Lists all containers, including stopped ones.");
            }
            return say("docker ps", "Lists running containers.");
        }
        if mentions(&l, "list") && image {
            return say("docker images", "Lists all available Docker images.");
        }
        if mentions(&l, "pull") && image {
            if let Some(i) = extract_image_name(input) {
                return say_with("docker pull ", i.as_str(), "Pulls the Docker image '", "'.");
            }
            return say("docker pull ", "Pulls a Docker image. You'll need to specify the image name.");
        }
        if (mentions(&l, "run") || mentions(&l, "start")) && (container || image) {
            if let Some(i) = extract_image_name(input) {
                return say_with("docker run ", i.as_str(), "Runs a container from the '", "' image.");
            }
            return say(
                "docker run ",
                "Runs a Docker container. You'll need to specify the image name.",
            );
        }
        if mentions(&l, "stop") && container {
            if let Some(c) = extract_container_name(input) {
                return say_with("docker stop ", c.as_str(), "Stops the running container '", "'.");
            }
            return say(
                "docker stop ",
                "Stops a running container. You'll need to specify the container ID or name.",
            );
        }
        if removing && container {
            if let Some(c) = extract_container_name(input) {
                return say_with("docker rm ", c.as_str(), "Removes the container '", "'.");
            }
            return say(
                "docker rm ",
                "Removes a container. You'll need to specify the container ID or name.",
            );
        }
        if removing && image {
            if let Some(i) = extract_image_name(input) {
                return say_with("docker rmi ", i.as_str(), "Removes the image '", "'.");
            }
            return say(
                "docker rmi ",
                "Removes a Docker image. You'll need to specify the image ID or name.",
            );
        }
        if mentions(&l, "compose") && mentions(&l, "up") {
            return say("docker-compose up", "Starts all services defined in docker-compose.yml.");
        }
        if mentions(&l, "compose") && mentions(&l, "down") {
            return say(
                "docker-compose down",
                "Stops and removes all services defined in docker-compose.yml.",
            );
        }
        if mentions(&l, "build") && image {
            if let Some(t) = extract_tag(input) {
                return Some(
                    suggest(
                        concat3("docker build -t ", t.as_str(), " ."),
                        concat3("Builds a Docker image with the tag '", t.as_str(), "'."),
                    ),
                );
            }
            return say("docker build -t ", "Builds a Docker image. You'll need to specify a tag.");
        }
        say(
            "docker ",
            "Docker is a platform for developing, shipping, and running applications in containers.",
        )
    }
}

} // verus!
