//! The reference question bank: a walk through debugging a virtual NIC
//! with GDB.

use vstd::prelude::*;
use crate::quiz::{questions_view, Question, QuestionView, QuizState, QuizView};

verus! {

/// The reference bank, in the order the questions are asked.
pub open spec fn reference_bank() -> Seq<QuestionView> {
    seq![
        QuestionView {
            prompt: "1. What command starts VirtualBox in the debug build?"@,
            hint: "Hint: From the debug/bin directory, run ./VirtualBox"@,
            answer: "./VirtualBox"@,
        },
        QuestionView {
            prompt: "2. How do you attach gdb to the VM process?"@,
            hint: "Hint: sudo gdb -p $(pidof VirtualBoxVM)"@,
            answer: "sudo gdb -p $(pidof VirtualBoxVM)"@,
        },
        QuestionView {
            prompt: "3. Which GDB directive ignores SIGTRAP?"@,
            hint: "Hint: handle SIGTRAP nostop noprint nopass"@,
            answer: "handle SIGTRAP nostop noprint nopass"@,
        },
        QuestionView {
            prompt: "4. How set the solib-search-path in GDB?"@,
            hint: "Hint: set solib-search-path /home/pde/.../debug/bin:/home/pde/.../debug/bin/components"@,
            answer: "set solib-search-path /home/pde/Downloads/VirtualBox-7.0.10/out/linux.amd64/debug/bin:/home/pde/Downloads/VirtualBox-7.0.10/out/linux.amd64/debug/bin/components"@,
        },
        QuestionView {
            prompt: "5. What breakpoint filters VLAN IDs >=4096?"@,
            hint: "Hint: break virtioNetR3CtrlVlan if uVlanId >= 4096"@,
            answer: "break virtioNetR3CtrlVlan if uVlanId >= 4096"@,
        },
        QuestionView {
            prompt: "6. How do you continue execution in GDB?"@,
            hint: "Hint: c"@,
            answer: "c"@,
        },
        QuestionView {
            prompt: "7. Which GDB command shows locals?"@,
            hint: "Hint: info locals"@,
            answer: "info locals"@,
        },
        QuestionView {
            prompt: "8. How remove the virtio-net module in the VM?"@,
            hint: "Hint: sudo rmmod virtio-net"@,
            answer: "sudo rmmod virtio-net"@,
        },
        QuestionView {
            prompt: "9. How insert the exploit module exploit.ko?"@,
            hint: "Hint: sudo insmod exploit.ko"@,
            answer: "sudo insmod exploit.ko"@,
        },
        QuestionView {
            prompt: "10. What do you expect after loading exploit.ko?"@,
            hint: "Hint: The GDB breakpoint at virtioNetR3CtrlVlan should hit and info locals shows uVlanId>=4096"@,
            answer: "breakpoint hit and info locals"@,
        },
    ]
}

/// Builds the reference bank.
pub fn reference_questions() -> (r: Vec<Question>)
    ensures
        questions_view(r@) == reference_bank(),
        r@.len() == 10,
{
    let mut v: Vec<Question> = Vec::new();
    v.push(
        Question::new(
            "1. What command starts VirtualBox in the debug build?",
            "Hint: From the debug/bin directory, run ./VirtualBox",
            "./VirtualBox",
        ),
    );
    v.push(
        Question::new(
            "2. How do you attach gdb to the VM process?",
            "Hint: sudo gdb -p $(pidof VirtualBoxVM)",
            "sudo gdb -p $(pidof VirtualBoxVM)",
        ),
    );
    v.push(
        Question::new(
            "3. Which GDB directive ignores SIGTRAP?",
            "Hint: handle SIGTRAP nostop noprint nopass",
            "handle SIGTRAP nostop noprint nopass",
        ),
    );
    v.push(
        Question::new(
            "4. How set the solib-search-path in GDB?",
            "Hint: set solib-search-path /home/pde/.../debug/bin:/home/pde/.../debug/bin/components",
            "set solib-search-path /home/pde/Downloads/VirtualBox-7.0.10/out/linux.amd64/debug/bin:/home/pde/Downloads/VirtualBox-7.0.10/out/linux.amd64/debug/bin/components",
        ),
    );
    v.push(
        Question::new(
            "5. What breakpoint filters VLAN IDs >=4096?",
            "Hint: break virtioNetR3CtrlVlan if uVlanId >= 4096",
            "break virtioNetR3CtrlVlan if uVlanId >= 4096",
        ),
    );
    v.push(
        Question::new(
            "6. How do you continue execution in GDB?",
            "Hint: c",
            "c",
        ),
    );
    v.push(
        Question::new(
            "7. Which GDB command shows locals?",
            "Hint: info locals",
            "info locals",
        ),
    );
    v.push(
        Question::new(
            "8. How remove the virtio-net module in the VM?",
            "Hint: sudo rmmod virtio-net",
            "sudo rmmod virtio-net",
        ),
    );
    v.push(
        Question::new(
            "9. How insert the exploit module exploit.ko?",
            "Hint: sudo insmod exploit.ko",
            "sudo insmod exploit.ko",
        ),
    );
    v.push(
        Question::new(
            "10. What do you expect after loading exploit.ko?",
            "Hint: The GDB breakpoint at virtioNetR3CtrlVlan should hit and info locals shows uVlanId>=4096",
            "breakpoint hit and info locals",
        ),
    );
    assert(questions_view(v@) =~= reference_bank());
    v
}

impl QuizState {
    /// Starts a quiz on the reference bank.
    pub fn new() -> (r: QuizState)
        ensures
            r@ == QuizView::initial(reference_bank()),
            r@.wf(),
    {
        QuizState::start(reference_questions())
    }
}

} // verus!
