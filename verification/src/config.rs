//! What the agent is set up to deploy, and the notification it checks
//! against that.

use vstd::prelude::*;
use vstd::string::*;

use crate::error::Error;
use crate::error::ErrorView;

verus! {

/// The repository this agent deploys and the service it restarts. Set once
/// and only read afterwards.
#[derive(Debug, PartialEq, Eq)]
pub struct DeployConfig {
    pub repository_name: String,
    pub service_name: String,
}

/// A [`DeployConfig`] with its names as character sequences.
pub struct DeployConfigView {
    pub repository_name: Seq<char>,
    pub service_name: Seq<char>,
}

impl View for DeployConfig {
    type V = DeployConfigView;

    open spec fn view(&self) -> DeployConfigView {
        DeployConfigView {
            repository_name: self.repository_name@,
            service_name: self.service_name@,
        }
    }
}

/// A message saying that a repository changed; holds that repository's name.
#[derive(Debug, PartialEq, Eq)]
pub struct DeployNotification {
    pub repository_name: String,
}

/// A [`DeployNotification`] with its name as a character sequence.
pub struct DeployNotificationView {
    pub repository_name: Seq<char>,
}

impl View for DeployNotification {
    type V = DeployNotificationView;

    open spec fn view(&self) -> DeployNotificationView {
        DeployNotificationView { repository_name: self.repository_name@ }
    }
}

/// The directory that holds the checked-out source of `repository_name`.
pub open spec fn target_directory(repository_name: Seq<char>) -> Seq<char> {
    "/var/www/"@ + repository_name
}

impl Clone for DeployConfig {
    fn clone(&self) -> (copy: Self)
        ensures
            copy@ == self@,
    {
        DeployConfig {
            repository_name: self.repository_name.clone(),
            service_name: self.service_name.clone(),
        }
    }
}

impl Clone for DeployNotification {
    fn clone(&self) -> (copy: Self)
        ensures
            copy@ == self@,
    {
        DeployNotification { repository_name: self.repository_name.clone() }
    }
}

impl DeployConfig {
    /// A configuration for repository `repository_name` and service
    /// `service_name`.
    pub fn new(repository_name: &str, service_name: &str) -> (config: DeployConfig)
        ensures
            config@ == (DeployConfigView {
                repository_name: repository_name@,
                service_name: service_name@,
            }),
    {
        DeployConfig {
            repository_name: repository_name.to_owned(),
            service_name: service_name.to_owned(),
        }
    }

    /// The directory in which the source is pulled and built.
    pub fn target_directory(&self) -> (directory: String)
        ensures
            directory@ == target_directory(self@.repository_name),
    {
        "/var/www/".to_owned().concat(self.repository_name.as_str())
    }

    /// Accepts `notification` if it names the configured repository, and
    /// rejects it with the name it carries otherwise.
    pub fn validate(&self, notification: &DeployNotification) -> (verdict: Result<(), Error>)
        ensures
            match verdict {
                Ok(_) => notification@.repository_name == self@.repository_name,
                Err(error) => {
                    &&& notification@.repository_name != self@.repository_name
                    &&& error@ == ErrorView::WrongRepository(notification@.repository_name)
                },
            },
    {
        if notification.repository_name == self.repository_name {
            Ok(())
        } else {
            Err(Error::WrongRepository(notification.repository_name.clone()))
        }
    }
}

impl DeployNotification {
    /// A notification that repository `repository_name` changed.
    pub fn new(repository_name: &str) -> (notification: DeployNotification)
        ensures
            notification@.repository_name == repository_name@,
    {
        DeployNotification { repository_name: repository_name.to_owned() }
    }
}

} // verus!
