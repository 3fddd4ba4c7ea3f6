//! What SNS tells of sandbox phone numbers, and what is written of topics
//! and subscriptions.
use crate::text::{join, join_with, listed, views};
use vstd::prelude::*;
use vstd::string::*;

verus! {

/// A phone number of the SMS sandbox and its state.
#[derive(Clone, Debug)]
pub struct SandboxNumber {
    pub phone_number: Option<String>,
    pub status: Option<String>,
}

/// A number and its state, four blanks apart, for each number of which both
/// are known.
pub open spec fn number_lines(numbers: Seq<SandboxNumber>) -> Seq<Seq<char>>
    decreases numbers.len(),
{
    if numbers.len() == 0 {
        Seq::empty()
    } else {
        let before = number_lines(numbers.drop_last());
        match (numbers.last().phone_number, numbers.last().status) {
            (Some(n), Some(s)) => before.push(n@ + "    "@ + s@),
            _ => before,
        }
    }
}

/// The numbers of the SMS sandbox with their states, one a line.
pub fn list_sms_sandbox_numbers(numbers: &Option<Vec<SandboxNumber>>) -> (out: String)
    ensures
        out@ == join_with(number_lines(listed(*numbers)), "\n"@),
{
    let mut lines: Vec<String> = Vec::new();
    assert(views(lines@) =~= Seq::<Seq<char>>::empty());
    match numbers {
        Some(list) => {
            let mut i: usize = 0;
            assert(list@.take(0) =~= Seq::<SandboxNumber>::empty());
            while i < list.len()
                invariant
                    i <= list.len(),
                    views(lines@) == number_lines(list@.take(i as int)),
                decreases list.len() - i,
            {
                assert(list@.take(i + 1).drop_last() =~= list@.take(i as int));
                match (&list[i].phone_number, &list[i].status) {
                    (Some(number), Some(status)) => {
                        let mut line = number.clone();
                        line.append("    ");
                        line.append(status.as_str());
                        let ghost before = views(lines@);
                        lines.push(line);
                        assert(views(lines@) =~= before.push(number@ + "    "@ + status@));
                    },
                    _ => {},
                }
                i = i + 1;
            }
            assert(list@.take(i as int) =~= list@);
        },
        None => {},
    }
    join(&lines, "\n")
}

/// What is written of a topic that was created, to `sns_topic_arn.txt`.
pub fn create_topic(topic_arn: &str) -> (record: String)
    ensures
        record@ == "The Amazon Resource Name (ARN) for the SNS topic is: "@ + topic_arn@ + "\n"@,
{
    let mut record = String::from_str("The Amazon Resource Name (ARN) for the SNS topic is: ");
    record.append(topic_arn);
    record.append("\n");
    record
}

/// What is written of a subscription, to `sns_topic_arn.txt`.
pub fn subscription(subscription_arn: &str) -> (record: String)
    ensures
        record@ == "The Amazon Resource Name for the Subscription is: "@ + subscription_arn@
            + "\n"@,
{
    let mut record = String::from_str("The Amazon Resource Name for the Subscription is: ");
    record.append(subscription_arn);
    record.append("\n");
    record
}

} // verus!
